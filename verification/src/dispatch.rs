//! The dispatch engine: the state machine that turns one upscale dispatch
//! into a plan of native GPU commands.
//!
//! Nothing here touches the graphics API. A dispatch descriptor comes in as
//! plain values; what comes out is a [`DispatchPlan`] — the exact commands to
//! record, in order — plus a status code. The boundary layer replays the plan
//! against the native command recorder. Every path brackets its work with two
//! coalesced barrier batches: transition-in before the work, transition-out
//! after it, restoring each resource's caller-declared state; a batch that
//! coalesced to nothing is skipped (no empty native barrier calls).

use crate::api::{
    ffxApiHeader, Tagged, FFX_API_DISPATCH_DESC_TYPE_UPSCALE,
    FFX_API_DISPATCH_DESC_TYPE_UPSCALE_GENERATEREACTIVEMASK, FFX_API_RETURN_ERROR,
    FFX_API_RETURN_ERROR_PARAMETER, FFX_API_RETURN_ERROR_UNKNOWN_DESCTYPE, FFX_API_RETURN_OK,
};
use crate::pipeline::{typed_view_format, typed_view_format_spec, PipelineBundle, PipelineCache};
use crate::state::{
    barrier_seq, push_barrier, transition_in, transition_in_spec, transition_out,
    transition_out_spec, translate_state_spec, BarrierDesc, NATIVE_STATE_COPY_DEST,
    NATIVE_STATE_COPY_SOURCE, NATIVE_STATE_PIXEL_SHADER_RESOURCE, NATIVE_STATE_RENDER_TARGET,
};
use crate::types::{FfxApiDimensions2D, FfxApiResource};
use crate::upscaler_type::{SelectionState, UpscalerType};
use vstd::prelude::*;

verus! {

// ---- The dispatch descriptor ----

/// One upscale dispatch as the engine reads it: the command recorder, the
/// resource records, the declared render region and the dispatch flags. The
/// wire descriptor also carries per-frame camera and sharpening scalars that
/// this engine never reads; the boundary layer owns those. The upscale
/// output size is deliberately not a field: the target wire format predates
/// it, so the output extent is read from the output resource's own
/// description.
#[derive(Clone, Copy, PartialEq, Eq, Structural, Debug)]
pub struct UpscaleDispatchDesc {
    pub command_list: u64,
    pub color: FfxApiResource,
    pub depth: FfxApiResource,
    pub motion_vectors: FfxApiResource,
    pub exposure: FfxApiResource,
    pub reactive: FfxApiResource,
    pub transparency_and_composition: FfxApiResource,
    pub dilated_depth: FfxApiResource,
    pub dilated_motion_vectors: FfxApiResource,
    pub reconstructed_prev_nearest_depth: FfxApiResource,
    pub output: FfxApiResource,
    pub render_size: FfxApiDimensions2D,
    pub flags: u32,
}

/// The native formats the graphics API reports for the resources a dispatch
/// may build shader views of (the unknown code for a null handle). The
/// boundary layer queries these from the resources themselves before
/// planning; a resource's reported format is always consistent with how it
/// was created, unlike the caller-declared one.
#[derive(Clone, Copy, PartialEq, Eq, Structural, Debug)]
pub struct NativeFormats {
    pub color: u32,
    pub depth: u32,
    pub motion_vectors: u32,
    pub reactive: u32,
    pub transparency_and_composition: u32,
    pub dilated_depth: u32,
    pub reconstructed_prev_nearest_depth: u32,
}

/// One node of a dispatch descriptor chain.
#[derive(Clone, Copy, PartialEq, Eq, Structural, Debug)]
pub enum DispatchDesc {
    Upscale(UpscaleDispatchDesc),
    /// Accepted as a recognized type, but the shim records no GPU work for
    /// it: reactive-mask generation is not reimplemented.
    GenerateReactiveMask,
    Other(ffxApiHeader),
}

impl Tagged for DispatchDesc {
    open spec fn tag_spec(&self) -> u64 {
        match self {
            DispatchDesc::Upscale(_) => FFX_API_DISPATCH_DESC_TYPE_UPSCALE,
            DispatchDesc::GenerateReactiveMask => FFX_API_DISPATCH_DESC_TYPE_UPSCALE_GENERATEREACTIVEMASK,
            DispatchDesc::Other(h) => h.type_,
        }
    }

    fn tag(&self) -> u64 {
        match self {
            DispatchDesc::Upscale(_) => FFX_API_DISPATCH_DESC_TYPE_UPSCALE,
            DispatchDesc::GenerateReactiveMask => FFX_API_DISPATCH_DESC_TYPE_UPSCALE_GENERATEREACTIVEMASK,
            DispatchDesc::Other(h) => h.type_,
        }
    }
}

// ---- The command plan ----

/// Which pipeline-state object a draw uses.
#[derive(Clone, Copy, PartialEq, Eq, Structural, Debug)]
pub enum PsoVariant {
    Bilinear,
    Lanczos,
    Debug,
}

/// A viewport (and identical scissor) in output pixels.
#[derive(Clone, Copy, PartialEq, Eq, Structural, Debug)]
pub struct Viewport {
    pub x: u32,
    pub y: u32,
    pub width: u32,
    pub height: u32,
}

/// The per-draw root constants. The boundary layer converts a resample's
/// rational UV scale to the shader's floating-point pair and a tile's mode to
/// the shader's integer constant.
#[derive(Clone, Copy, PartialEq, Eq, Structural, Debug)]
pub enum DrawConstants {
    /// UV scale `num / den` per axis (the render region over the color
    /// texture extent) plus the color texture extent itself.
    Resample {
        uv_scale_x_num: u32,
        uv_scale_x_den: u32,
        uv_scale_y_num: u32,
        uv_scale_y_den: u32,
        tex_width: u32,
        tex_height: u32,
    },
    /// Full-texture UV and an integer visualization mode.
    DebugTile { viz_mode: u32 },
}

/// One non-indexed fullscreen-triangle draw: three vertices, no vertex
/// buffer, sampling the shader view in `srv_slot`.
#[derive(Clone, Copy, PartialEq, Eq, Structural, Debug)]
pub struct DrawCall {
    pub pso: PsoVariant,
    pub srv_slot: u32,
    pub constants: DrawConstants,
    pub viewport: Viewport,
}

/// One unit of GPU work between the two barrier batches.
#[derive(Clone, Copy, PartialEq, Eq, Structural, Debug)]
pub enum WorkCommand {
    /// Copy a `width` by `height` region from the source's top-left corner
    /// to the destination's top-left corner.
    CopyRegion { src: u64, dst: u64, width: u32, height: u32 },
    /// Copy the whole resource; only valid when the extents are identical.
    CopyFull { src: u64, dst: u64 },
    /// Create a shader view of a resource with an explicit typed format in
    /// the given shader-visible descriptor slot.
    CreateShaderView { resource: u64, format: u32, slot: u32 },
    /// Create the render-target view of a resource (default description).
    CreateTargetView { resource: u64 },
    /// Clear the bound render target to the background color.
    ClearTarget,
    /// One fullscreen-triangle draw.
    Draw(DrawCall),
    /// Hand the recorder to the external overlay collaborator while the
    /// output is still bound as the render target, passing its extent.
    Overlay { width: u32, height: u32 },
}

/// The commands one dispatch records, in order: one coalesced transition-in
/// batch (skipped by the boundary layer when empty), the work, and one
/// coalesced transition-out batch restoring every touched resource to its
/// caller-declared state.
pub struct DispatchPlan {
    pub barriers_in: Vec<BarrierDesc>,
    pub work: Vec<WorkCommand>,
    pub barriers_out: Vec<BarrierDesc>,
}

impl DispatchPlan {
    /// A plan that records nothing: what every failing path returns.
    pub open spec fn is_empty_spec(&self) -> bool {
        self.barriers_in@ =~= Seq::<BarrierDesc>::empty() && self.work@ =~= Seq::<
            WorkCommand,
        >::empty() && self.barriers_out@ =~= Seq::<BarrierDesc>::empty()
    }

    /// The empty plan.
    pub fn empty() -> (r: DispatchPlan)
        ensures
            r.is_empty_spec(),
    {
        DispatchPlan { barriers_in: Vec::new(), work: Vec::new(), barriers_out: Vec::new() }
    }
}

// ---- The source region ----

/// The width of the source region a dispatch reads: the declared render
/// width if nonzero, else the full color extent.
pub open spec fn region_width_spec(d: UpscaleDispatchDesc) -> u32 {
    if d.render_size.width > 0 {
        d.render_size.width
    } else {
        d.color.description.width
    }
}

/// The height of the source region a dispatch reads.
pub open spec fn region_height_spec(d: UpscaleDispatchDesc) -> u32 {
    if d.render_size.height > 0 {
        d.render_size.height
    } else {
        d.color.description.height
    }
}

/// Whether a dispatch is one-to-one: the source region already has the
/// output extent, so no resampling is needed at all.
pub open spec fn is_one_to_one_spec(d: UpscaleDispatchDesc) -> bool {
    region_width_spec(d) == d.output.description.width && region_height_spec(d)
        == d.output.description.height
}

// ---- Copy-path plans ----

/// Transition-in batch of the two copy paths: color to copy-source, output
/// to copy-destination, each elided when already there.
pub open spec fn copy_barriers_in_spec(d: UpscaleDispatchDesc) -> Seq<BarrierDesc> {
    barrier_seq(transition_in_spec(d.color.resource, d.color.state, NATIVE_STATE_COPY_SOURCE))
        + barrier_seq(transition_in_spec(d.output.resource, d.output.state, NATIVE_STATE_COPY_DEST))
}

/// Transition-out batch of the two copy paths: both resources restored to
/// their declared states.
pub open spec fn copy_barriers_out_spec(d: UpscaleDispatchDesc) -> Seq<BarrierDesc> {
    barrier_seq(transition_out_spec(d.color.resource, NATIVE_STATE_COPY_SOURCE, d.color.state))
        + barrier_seq(
        transition_out_spec(d.output.resource, NATIVE_STATE_COPY_DEST, d.output.state),
    )
}

/// Build the shared copy-path barrier batches.
fn copy_barriers(d: &UpscaleDispatchDesc) -> (r: (Vec<BarrierDesc>, Vec<BarrierDesc>))
    ensures
        r.0@ == copy_barriers_in_spec(*d),
        r.1@ == copy_barriers_out_spec(*d),
{
    let mut barriers_in: Vec<BarrierDesc> = Vec::new();
    push_barrier(
        &mut barriers_in,
        transition_in(d.color.resource, d.color.state, NATIVE_STATE_COPY_SOURCE),
    );
    push_barrier(
        &mut barriers_in,
        transition_in(d.output.resource, d.output.state, NATIVE_STATE_COPY_DEST),
    );
    let mut barriers_out: Vec<BarrierDesc> = Vec::new();
    push_barrier(
        &mut barriers_out,
        transition_out(d.color.resource, NATIVE_STATE_COPY_SOURCE, d.color.state),
    );
    push_barrier(
        &mut barriers_out,
        transition_out(d.output.resource, NATIVE_STATE_COPY_DEST, d.output.state),
    );
    proof {
        assert(barriers_in@ =~= copy_barriers_in_spec(*d));
        assert(barriers_out@ =~= copy_barriers_out_spec(*d));
    }
    (barriers_in, barriers_out)
}

/// The one-to-one fast path: barrier both resources for a copy, copy the
/// whole resource (the extents are identical), restore. No shader pipeline
/// is touched.
///
/// Fails with the parameter error — and an empty plan — when the command
/// recorder or either resource handle is null.
pub fn dispatch_anti_aliasing(d: &UpscaleDispatchDesc) -> (r: (u32, DispatchPlan))
    ensures
        (d.command_list == 0 || d.color.resource == 0 || d.output.resource == 0) ==> (r.0
            == FFX_API_RETURN_ERROR_PARAMETER && r.1.is_empty_spec()),
        (d.command_list != 0 && d.color.resource != 0 && d.output.resource != 0) ==> {
            &&& r.0 == FFX_API_RETURN_OK
            &&& r.1.barriers_in@ == copy_barriers_in_spec(*d)
            &&& r.1.work@ == seq![
                WorkCommand::CopyFull { src: d.color.resource, dst: d.output.resource },
            ]
            &&& r.1.barriers_out@ == copy_barriers_out_spec(*d)
        },
{
    if d.command_list == 0 || d.color.resource == 0 || d.output.resource == 0 {
        return (FFX_API_RETURN_ERROR_PARAMETER, DispatchPlan::empty());
    }
    let (barriers_in, barriers_out) = copy_barriers(d);
    let mut work: Vec<WorkCommand> = Vec::new();
    work.push(WorkCommand::CopyFull { src: d.color.resource, dst: d.output.resource });
    proof {
        assert(work@ =~= seq![
            WorkCommand::CopyFull { src: d.color.resource, dst: d.output.resource },
        ]);
    }
    (FFX_API_RETURN_OK, DispatchPlan { barriers_in, work, barriers_out })
}

/// The passthrough copy path: barrier both resources for a copy, copy the
/// source region into the output's top-left corner (a region copy, because
/// the extents may differ and a whole-resource copy would be refused),
/// restore. No shader pipeline is touched.
///
/// Fails with the parameter error — and an empty plan — when the command
/// recorder or either resource handle is null.
pub fn dispatch_passthrough_copy(d: &UpscaleDispatchDesc) -> (r: (u32, DispatchPlan))
    ensures
        (d.command_list == 0 || d.color.resource == 0 || d.output.resource == 0) ==> (r.0
            == FFX_API_RETURN_ERROR_PARAMETER && r.1.is_empty_spec()),
        (d.command_list != 0 && d.color.resource != 0 && d.output.resource != 0) ==> {
            &&& r.0 == FFX_API_RETURN_OK
            &&& r.1.barriers_in@ == copy_barriers_in_spec(*d)
            &&& r.1.work@ == seq![
                WorkCommand::CopyRegion {
                    src: d.color.resource,
                    dst: d.output.resource,
                    width: region_width_spec(*d),
                    height: region_height_spec(*d),
                },
            ]
            &&& r.1.barriers_out@ == copy_barriers_out_spec(*d)
        },
{
    if d.command_list == 0 || d.color.resource == 0 || d.output.resource == 0 {
        return (FFX_API_RETURN_ERROR_PARAMETER, DispatchPlan::empty());
    }
    let width: u32 = if d.render_size.width > 0 {
        d.render_size.width
    } else {
        d.color.description.width
    };
    let height: u32 = if d.render_size.height > 0 {
        d.render_size.height
    } else {
        d.color.description.height
    };
    let (barriers_in, barriers_out) = copy_barriers(d);
    let mut work: Vec<WorkCommand> = Vec::new();
    work.push(
        WorkCommand::CopyRegion { src: d.color.resource, dst: d.output.resource, width, height },
    );
    proof {
        assert(work@ =~= seq![
            WorkCommand::CopyRegion {
                src: d.color.resource,
                dst: d.output.resource,
                width: region_width_spec(*d),
                height: region_height_spec(*d),
            },
        ]);
    }
    (FFX_API_RETURN_OK, DispatchPlan { barriers_in, work, barriers_out })
}

// ---- Shader resample path ----

/// The pipeline-state object the selection state picks for the resample
/// draw. A passthrough selection never reaches a shader draw through the
/// dispatcher; a direct caller gets the bilinear-style pipeline.
pub open spec fn pso_of_spec(sel: SelectionState) -> PsoVariant {
    match sel.active {
        UpscalerType::Lanczos => PsoVariant::Lanczos,
        _ => PsoVariant::Bilinear,
    }
}

/// The resample draw over a viewport: UV scale is the source region over the
/// color extent per axis, and the color extent rides along as the remaining
/// shader constants.
pub open spec fn resample_draw_spec(d: UpscaleDispatchDesc, pso: PsoVariant, vp: Viewport) -> DrawCall {
    DrawCall {
        pso,
        srv_slot: 0,
        constants: DrawConstants::Resample {
            uv_scale_x_num: region_width_spec(d),
            uv_scale_x_den: d.color.description.width,
            uv_scale_y_num: region_height_spec(d),
            uv_scale_y_den: d.color.description.height,
            tex_width: d.color.description.width,
            tex_height: d.color.description.height,
        },
        viewport: vp,
    }
}

/// Transition-in batch of the shader paths' two principal resources: color
/// to shader-readable, output to render-target.
pub open spec fn shader_barriers_in_spec(d: UpscaleDispatchDesc) -> Seq<BarrierDesc> {
    barrier_seq(
        transition_in_spec(d.color.resource, d.color.state, NATIVE_STATE_PIXEL_SHADER_RESOURCE),
    ) + barrier_seq(
        transition_in_spec(d.output.resource, d.output.state, NATIVE_STATE_RENDER_TARGET),
    )
}

/// Transition-out batch restoring the two principal resources.
pub open spec fn shader_barriers_out_spec(d: UpscaleDispatchDesc) -> Seq<BarrierDesc> {
    barrier_seq(
        transition_out_spec(d.color.resource, NATIVE_STATE_PIXEL_SHADER_RESOURCE, d.color.state),
    ) + barrier_seq(
        transition_out_spec(d.output.resource, NATIVE_STATE_RENDER_TARGET, d.output.state),
    )
}

/// The shader view of the color resource, when a safe typed format exists
/// for it; with no safe format the view — and the draw that would sample it —
/// is skipped rather than recorded over a stale or hazardous descriptor.
pub open spec fn color_view_and_draw_spec(
    d: UpscaleDispatchDesc,
    formats: NativeFormats,
    pso: PsoVariant,
    vp: Viewport,
) -> Seq<WorkCommand> {
    match typed_view_format_spec(formats.color, d.color.description.format) {
        Some(f) => seq![
            WorkCommand::CreateShaderView { resource: d.color.resource, format: f, slot: 0 },
            WorkCommand::Draw(resample_draw_spec(d, pso, vp)),
        ],
        None => Seq::empty(),
    }
}

/// The full-output viewport of a dispatch.
pub open spec fn full_viewport_spec(d: UpscaleDispatchDesc) -> Viewport {
    Viewport { x: 0, y: 0, width: d.output.description.width, height: d.output.description.height }
}

/// Work of the plain resample path: the output's render-target view, the
/// color view with one fullscreen-triangle draw over the whole output, then
/// the overlay while the target is still bound.
pub open spec fn resample_work_spec(
    d: UpscaleDispatchDesc,
    formats: NativeFormats,
    sel: SelectionState,
) -> Seq<WorkCommand> {
    seq![WorkCommand::CreateTargetView { resource: d.output.resource }]
        + color_view_and_draw_spec(d, formats, pso_of_spec(sel), full_viewport_spec(d)) + seq![
        WorkCommand::Overlay {
            width: d.output.description.width,
            height: d.output.description.height,
        },
    ]
}

/// A dispatch whose color or output extent is degenerate: the shader path
/// refuses it rather than building views over nothing.
pub open spec fn has_zero_extent_spec(d: UpscaleDispatchDesc) -> bool {
    d.color.description.width == 0 || d.color.description.height == 0
        || d.output.description.width == 0 || d.output.description.height == 0
}

/// Build the shader paths' color/output barrier batches.
fn shader_barriers(d: &UpscaleDispatchDesc) -> (r: (Vec<BarrierDesc>, Vec<BarrierDesc>))
    ensures
        r.0@ == shader_barriers_in_spec(*d),
        r.1@ == shader_barriers_out_spec(*d),
{
    let mut barriers_in: Vec<BarrierDesc> = Vec::new();
    push_barrier(
        &mut barriers_in,
        transition_in(d.color.resource, d.color.state, NATIVE_STATE_PIXEL_SHADER_RESOURCE),
    );
    push_barrier(
        &mut barriers_in,
        transition_in(d.output.resource, d.output.state, NATIVE_STATE_RENDER_TARGET),
    );
    let mut barriers_out: Vec<BarrierDesc> = Vec::new();
    push_barrier(
        &mut barriers_out,
        transition_out(d.color.resource, NATIVE_STATE_PIXEL_SHADER_RESOURCE, d.color.state),
    );
    push_barrier(
        &mut barriers_out,
        transition_out(d.output.resource, NATIVE_STATE_RENDER_TARGET, d.output.state),
    );
    proof {
        assert(barriers_in@ =~= shader_barriers_in_spec(*d));
        assert(barriers_out@ =~= shader_barriers_out_spec(*d));
    }
    (barriers_in, barriers_out)
}

/// Append the color view and its resample draw when a safe view format
/// exists; append nothing otherwise.
fn push_color_view_and_draw(
    work: &mut Vec<WorkCommand>,
    d: &UpscaleDispatchDesc,
    formats: &NativeFormats,
    pso: PsoVariant,
    vp: Viewport,
)
    ensures
        final(work)@ == old(work)@ + color_view_and_draw_spec(*d, *formats, pso, vp),
{
    match typed_view_format(formats.color, d.color.description.format) {
        Some(f) => {
            work.push(
                WorkCommand::CreateShaderView { resource: d.color.resource, format: f, slot: 0 },
            );
            work.push(
                WorkCommand::Draw(
                    DrawCall {
                        pso,
                        srv_slot: 0,
                        constants: DrawConstants::Resample {
                            uv_scale_x_num: if d.render_size.width > 0 {
                                d.render_size.width
                            } else {
                                d.color.description.width
                            },
                            uv_scale_x_den: d.color.description.width,
                            uv_scale_y_num: if d.render_size.height > 0 {
                                d.render_size.height
                            } else {
                                d.color.description.height
                            },
                            uv_scale_y_den: d.color.description.height,
                            tex_width: d.color.description.width,
                            tex_height: d.color.description.height,
                        },
                        viewport: vp,
                    },
                ),
            );
            proof {
                assert(work@ =~= old(work)@ + color_view_and_draw_spec(*d, *formats, pso, vp));
            }
        },
        None => {
            proof {
                assert(work@ + color_view_and_draw_spec(*d, *formats, pso, vp) =~= work@);
            }
        },
    }
}

/// The shader resample path: barrier color to shader-readable and output to
/// render-target, bind the output as the target, draw one fullscreen
/// triangle that samples the color region with the selected pipeline, let
/// the overlay draw, and restore both declared states.
///
/// Fails with the parameter error on a null recorder or resource handle, and
/// with the generic error — still no GPU work — when either extent is zero.
/// The caller resolves the pipeline cache first; this path assumes the
/// pipeline objects exist.
pub fn dispatch_upscale(
    d: &UpscaleDispatchDesc,
    formats: &NativeFormats,
    selection: &SelectionState,
) -> (r: (u32, DispatchPlan))
    ensures
        (d.command_list == 0 || d.color.resource == 0 || d.output.resource == 0) ==> (r.0
            == FFX_API_RETURN_ERROR_PARAMETER && r.1.is_empty_spec()),
        (d.command_list != 0 && d.color.resource != 0 && d.output.resource != 0) ==> {
            if has_zero_extent_spec(*d) {
                r.0 == FFX_API_RETURN_ERROR && r.1.is_empty_spec()
            } else {
                &&& r.0 == FFX_API_RETURN_OK
                &&& r.1.barriers_in@ == shader_barriers_in_spec(*d)
                &&& r.1.work@ == resample_work_spec(*d, *formats, *selection)
                &&& r.1.barriers_out@ == shader_barriers_out_spec(*d)
            }
        },
{
    if d.command_list == 0 || d.color.resource == 0 || d.output.resource == 0 {
        return (FFX_API_RETURN_ERROR_PARAMETER, DispatchPlan::empty());
    }
    if d.color.description.width == 0 || d.color.description.height == 0
        || d.output.description.width == 0 || d.output.description.height == 0 {
        return (FFX_API_RETURN_ERROR, DispatchPlan::empty());
    }
    let (barriers_in, barriers_out) = shader_barriers(d);
    let pso: PsoVariant = match selection.active {
        UpscalerType::Lanczos => PsoVariant::Lanczos,
        _ => PsoVariant::Bilinear,
    };
    let full = Viewport {
        x: 0,
        y: 0,
        width: d.output.description.width,
        height: d.output.description.height,
    };
    let mut work: Vec<WorkCommand> = Vec::new();
    work.push(WorkCommand::CreateTargetView { resource: d.output.resource });
    push_color_view_and_draw(&mut work, d, formats, pso, full);
    work.push(
        WorkCommand::Overlay {
            width: d.output.description.width,
            height: d.output.description.height,
        },
    );
    proof {
        assert(work@ =~= resample_work_spec(*d, *formats, *selection));
    }
    (FFX_API_RETURN_OK, DispatchPlan { barriers_in, work, barriers_out })
}

// ---- Diagnostic grid path ----

/// The transition a debug tile's source contributes on the way in: to
/// shader-readable, nothing for a null handle. Every non-null tile source is
/// barriered, even one whose view is later refused — the barrier batch is
/// decided before view formats are resolved.
pub open spec fn tile_barrier_in_spec(res: FfxApiResource) -> Seq<BarrierDesc> {
    if res.resource != 0 {
        barrier_seq(transition_in_spec(res.resource, res.state, NATIVE_STATE_PIXEL_SHADER_RESOURCE))
    } else {
        Seq::empty()
    }
}

/// The transition a debug tile's source contributes on the way out: back to
/// its declared state.
pub open spec fn tile_barrier_out_spec(res: FfxApiResource) -> Seq<BarrierDesc> {
    if res.resource != 0 {
        barrier_seq(
            transition_out_spec(res.resource, NATIVE_STATE_PIXEL_SHADER_RESOURCE, res.state),
        )
    } else {
        Seq::empty()
    }
}

/// Transition-in batch of the diagnostic grid: the color source (when
/// present), the six tile sources in grid order, and the output, coalesced
/// into one batch.
pub open spec fn debug_barriers_in_spec(d: UpscaleDispatchDesc) -> Seq<BarrierDesc> {
    tile_barrier_in_spec(d.color) + tile_barrier_in_spec(d.motion_vectors) + tile_barrier_in_spec(
        d.transparency_and_composition,
    ) + tile_barrier_in_spec(d.dilated_depth) + tile_barrier_in_spec(
        d.reconstructed_prev_nearest_depth,
    ) + tile_barrier_in_spec(d.reactive) + tile_barrier_in_spec(d.depth) + barrier_seq(
        transition_in_spec(d.output.resource, d.output.state, NATIVE_STATE_RENDER_TARGET),
    )
}

/// Transition-out batch of the diagnostic grid: every barriered resource
/// restored to its declared state.
pub open spec fn debug_barriers_out_spec(d: UpscaleDispatchDesc) -> Seq<BarrierDesc> {
    tile_barrier_out_spec(d.color) + tile_barrier_out_spec(d.motion_vectors)
        + tile_barrier_out_spec(d.transparency_and_composition) + tile_barrier_out_spec(
        d.dilated_depth,
    ) + tile_barrier_out_spec(d.reconstructed_prev_nearest_depth) + tile_barrier_out_spec(
        d.reactive,
    ) + tile_barrier_out_spec(d.depth) + barrier_seq(
        transition_out_spec(d.output.resource, NATIVE_STATE_RENDER_TARGET, d.output.state),
    )
}

/// The work one debug tile contributes: its shader view and one draw with
/// the debug pipeline and its visualization mode. A tile whose source is
/// null, or whose format cannot be made filterable, is silently skipped —
/// left as cleared background, never a dispatch failure.
pub open spec fn tile_work_spec(
    res: FfxApiResource,
    native_format: u32,
    viz_mode: u32,
    slot: u32,
    vp: Viewport,
) -> Seq<WorkCommand> {
    if res.resource == 0 {
        Seq::empty()
    } else {
        match typed_view_format_spec(native_format, res.description.format) {
            Some(f) => seq![
                WorkCommand::CreateShaderView { resource: res.resource, format: f, slot },
                WorkCommand::Draw(
                    DrawCall {
                        pso: PsoVariant::Debug,
                        srv_slot: slot,
                        constants: DrawConstants::DebugTile { viz_mode },
                        viewport: vp,
                    },
                ),
            ],
            None => Seq::empty(),
        }
    }
}

/// The center tile of the grid: the upscaled color, drawn with the bilinear
/// pipeline over the center column. Skipped when the color source is null or
/// refuses a filterable view.
pub open spec fn debug_center_work_spec(
    d: UpscaleDispatchDesc,
    formats: NativeFormats,
    vp: Viewport,
) -> Seq<WorkCommand> {
    if d.color.resource == 0 {
        Seq::empty()
    } else {
        color_view_and_draw_spec(d, formats, PsoVariant::Bilinear, vp)
    }
}

/// The grid geometry: each side column is a fifth of the output width, split
/// into three rows; the center column takes the rest.
pub open spec fn debug_side_width_spec(d: UpscaleDispatchDesc) -> u32 {
    (d.output.description.width / 5) as u32
}

pub open spec fn debug_tile_height_spec(d: UpscaleDispatchDesc) -> u32 {
    (d.output.description.height / 3) as u32
}

pub open spec fn debug_center_viewport_spec(d: UpscaleDispatchDesc) -> Viewport {
    Viewport {
        x: debug_side_width_spec(d),
        y: 0,
        width: (d.output.description.width - 2 * debug_side_width_spec(d)) as u32,
        height: d.output.description.height,
    }
}

/// The viewport of the tile in the given column (left or right) and row.
pub open spec fn debug_tile_viewport_spec(d: UpscaleDispatchDesc, right: bool, row: u32) -> Viewport {
    Viewport {
        x: if right {
            (d.output.description.width - debug_side_width_spec(d)) as u32
        } else {
            0
        },
        y: (row * debug_tile_height_spec(d)) as u32,
        width: debug_side_width_spec(d),
        height: debug_tile_height_spec(d),
    }
}

/// Work of the diagnostic grid: bind and clear the output, draw the center
/// resample, draw up to six auxiliary tiles — motion vectors, transparency,
/// dilated depth down the left; reconstructed depth, reactive mask, depth
/// down the right — then the overlay over the full extent.
pub open spec fn debug_work_spec(d: UpscaleDispatchDesc, formats: NativeFormats) -> Seq<
    WorkCommand,
> {
    seq![
        WorkCommand::CreateTargetView { resource: d.output.resource },
        WorkCommand::ClearTarget,
    ] + debug_center_work_spec(d, formats, debug_center_viewport_spec(d)) + tile_work_spec(
        d.motion_vectors,
        formats.motion_vectors,
        2,
        2,
        debug_tile_viewport_spec(d, false, 0),
    ) + tile_work_spec(
        d.transparency_and_composition,
        formats.transparency_and_composition,
        0,
        3,
        debug_tile_viewport_spec(d, false, 1),
    ) + tile_work_spec(
        d.dilated_depth,
        formats.dilated_depth,
        1,
        4,
        debug_tile_viewport_spec(d, false, 2),
    ) + tile_work_spec(
        d.reconstructed_prev_nearest_depth,
        formats.reconstructed_prev_nearest_depth,
        1,
        5,
        debug_tile_viewport_spec(d, true, 0),
    ) + tile_work_spec(d.reactive, formats.reactive, 3, 6, debug_tile_viewport_spec(d, true, 1))
        + tile_work_spec(d.depth, formats.depth, 1, 7, debug_tile_viewport_spec(d, true, 2)) + seq![
        WorkCommand::Overlay {
            width: d.output.description.width,
            height: d.output.description.height,
        },
    ]
}

/// Append a tile source's transition-in, when it has one.
fn push_tile_barrier_in(batch: &mut Vec<BarrierDesc>, res: &FfxApiResource)
    ensures
        final(batch)@ == old(batch)@ + tile_barrier_in_spec(*res),
{
    if res.resource != 0 {
        push_barrier(
            batch,
            transition_in(res.resource, res.state, NATIVE_STATE_PIXEL_SHADER_RESOURCE),
        );
    } else {
        proof {
            assert(batch@ + tile_barrier_in_spec(*res) =~= batch@);
        }
    }
}

/// Append a tile source's transition-out, when it has one.
fn push_tile_barrier_out(batch: &mut Vec<BarrierDesc>, res: &FfxApiResource)
    ensures
        final(batch)@ == old(batch)@ + tile_barrier_out_spec(*res),
{
    if res.resource != 0 {
        push_barrier(
            batch,
            transition_out(res.resource, NATIVE_STATE_PIXEL_SHADER_RESOURCE, res.state),
        );
    } else {
        proof {
            assert(batch@ + tile_barrier_out_spec(*res) =~= batch@);
        }
    }
}

/// Append one debug tile's view and draw, when its source is present and
/// viewable.
fn push_tile_work(
    work: &mut Vec<WorkCommand>,
    res: &FfxApiResource,
    native_format: u32,
    viz_mode: u32,
    slot: u32,
    vp: Viewport,
)
    ensures
        final(work)@ == old(work)@ + tile_work_spec(*res, native_format, viz_mode, slot, vp),
{
    if res.resource == 0 {
        proof {
            assert(work@ + tile_work_spec(*res, native_format, viz_mode, slot, vp) =~= work@);
        }
        return ;
    }
    match typed_view_format(native_format, res.description.format) {
        Some(f) => {
            work.push(WorkCommand::CreateShaderView { resource: res.resource, format: f, slot });
            work.push(
                WorkCommand::Draw(
                    DrawCall {
                        pso: PsoVariant::Debug,
                        srv_slot: slot,
                        constants: DrawConstants::DebugTile { viz_mode },
                        viewport: vp,
                    },
                ),
            );
            proof {
                assert(work@ =~= old(work)@ + tile_work_spec(*res, native_format, viz_mode, slot, vp));
            }
        },
        None => {
            proof {
                assert(work@ + tile_work_spec(*res, native_format, viz_mode, slot, vp) =~= work@);
            }
        },
    }
}

/// The diagnostic grid path: every available input texture is shown in a
/// three-row grid down the left and right fifths of the output, the upscaled
/// color fills the center, and the overlay draws last. The color source may
/// be null here — the center is then left as cleared background.
///
/// Fails with the parameter error on a null recorder or output handle, and
/// with the generic error when the output extent is zero.
pub fn dispatch_debug_view(d: &UpscaleDispatchDesc, formats: &NativeFormats) -> (r: (
    u32,
    DispatchPlan,
))
    ensures
        (d.command_list == 0 || d.output.resource == 0) ==> (r.0 == FFX_API_RETURN_ERROR_PARAMETER
            && r.1.is_empty_spec()),
        (d.command_list != 0 && d.output.resource != 0) ==> {
            if d.output.description.width == 0 || d.output.description.height == 0 {
                r.0 == FFX_API_RETURN_ERROR && r.1.is_empty_spec()
            } else {
                &&& r.0 == FFX_API_RETURN_OK
                &&& r.1.barriers_in@ == debug_barriers_in_spec(*d)
                &&& r.1.work@ == debug_work_spec(*d, *formats)
                &&& r.1.barriers_out@ == debug_barriers_out_spec(*d)
            }
        },
{
    if d.command_list == 0 || d.output.resource == 0 {
        return (FFX_API_RETURN_ERROR_PARAMETER, DispatchPlan::empty());
    }
    let out_w: u32 = d.output.description.width;
    let out_h: u32 = d.output.description.height;
    if out_w == 0 || out_h == 0 {
        return (FFX_API_RETURN_ERROR, DispatchPlan::empty());
    }
    // Grid geometry; the side columns never outgrow the output.
    let side_w: u32 = out_w / 5;
    let tile_h: u32 = out_h / 3;
    proof {
        assert(2 * (out_w / 5) <= out_w && out_w / 5 <= out_w && 2 * (out_h / 3) <= out_h)
            by (nonlinear_arith)
        ;
    }
    let center_w: u32 = out_w - 2 * side_w;
    let right_x: u32 = out_w - side_w;

    let mut barriers_in: Vec<BarrierDesc> = Vec::new();
    push_tile_barrier_in(&mut barriers_in, &d.color);
    push_tile_barrier_in(&mut barriers_in, &d.motion_vectors);
    push_tile_barrier_in(&mut barriers_in, &d.transparency_and_composition);
    push_tile_barrier_in(&mut barriers_in, &d.dilated_depth);
    push_tile_barrier_in(&mut barriers_in, &d.reconstructed_prev_nearest_depth);
    push_tile_barrier_in(&mut barriers_in, &d.reactive);
    push_tile_barrier_in(&mut barriers_in, &d.depth);
    push_barrier(
        &mut barriers_in,
        transition_in(d.output.resource, d.output.state, NATIVE_STATE_RENDER_TARGET),
    );

    let mut work: Vec<WorkCommand> = Vec::new();
    work.push(WorkCommand::CreateTargetView { resource: d.output.resource });
    work.push(WorkCommand::ClearTarget);
    if d.color.resource != 0 {
        let center_vp = Viewport { x: side_w, y: 0, width: center_w, height: out_h };
        push_color_view_and_draw(&mut work, d, formats, PsoVariant::Bilinear, center_vp);
    }
    push_tile_work(
        &mut work,
        &d.motion_vectors,
        formats.motion_vectors,
        2,
        2,
        Viewport { x: 0, y: 0, width: side_w, height: tile_h },
    );
    push_tile_work(
        &mut work,
        &d.transparency_and_composition,
        formats.transparency_and_composition,
        0,
        3,
        Viewport { x: 0, y: tile_h, width: side_w, height: tile_h },
    );
    push_tile_work(
        &mut work,
        &d.dilated_depth,
        formats.dilated_depth,
        1,
        4,
        Viewport { x: 0, y: 2 * tile_h, width: side_w, height: tile_h },
    );
    push_tile_work(
        &mut work,
        &d.reconstructed_prev_nearest_depth,
        formats.reconstructed_prev_nearest_depth,
        1,
        5,
        Viewport { x: right_x, y: 0, width: side_w, height: tile_h },
    );
    push_tile_work(
        &mut work,
        &d.reactive,
        formats.reactive,
        3,
        6,
        Viewport { x: right_x, y: tile_h, width: side_w, height: tile_h },
    );
    push_tile_work(
        &mut work,
        &d.depth,
        formats.depth,
        1,
        7,
        Viewport { x: right_x, y: 2 * tile_h, width: side_w, height: tile_h },
    );
    work.push(WorkCommand::Overlay { width: out_w, height: out_h });

    let mut barriers_out: Vec<BarrierDesc> = Vec::new();
    push_tile_barrier_out(&mut barriers_out, &d.color);
    push_tile_barrier_out(&mut barriers_out, &d.motion_vectors);
    push_tile_barrier_out(&mut barriers_out, &d.transparency_and_composition);
    push_tile_barrier_out(&mut barriers_out, &d.dilated_depth);
    push_tile_barrier_out(&mut barriers_out, &d.reconstructed_prev_nearest_depth);
    push_tile_barrier_out(&mut barriers_out, &d.reactive);
    push_tile_barrier_out(&mut barriers_out, &d.depth);
    push_barrier(
        &mut barriers_out,
        transition_out(d.output.resource, NATIVE_STATE_RENDER_TARGET, d.output.state),
    );

    proof {
        assert(barriers_in@ =~= debug_barriers_in_spec(*d));
        assert(barriers_out@ =~= debug_barriers_out_spec(*d));
        assert(debug_center_work_spec(*d, *formats, debug_center_viewport_spec(*d))
            =~= if d.color.resource == 0 {
            Seq::<WorkCommand>::empty()
        } else {
            color_view_and_draw_spec(
                *d,
                *formats,
                PsoVariant::Bilinear,
                debug_center_viewport_spec(*d),
            )
        });
        assert(work@ =~= debug_work_spec(*d, *formats));
    }
    (FFX_API_RETURN_OK, DispatchPlan { barriers_in, work, barriers_out })
}

// ---- The dispatch state machine ----

/// An upscale dispatch with its required handles present: the command
/// recorder and both the color and output resources.
pub open spec fn upscale_valid_spec(d: UpscaleDispatchDesc) -> bool {
    d.command_list != 0 && d.color.resource != 0 && d.output.resource != 0
}

/// Whether a dispatch would take a shader path and so needs the pipeline
/// objects: a valid upscale dispatch that is neither one-to-one (the copy
/// fast path) nor under a passthrough selection.
pub open spec fn upscale_needs_pipeline_spec(d: UpscaleDispatchDesc, sel: SelectionState) -> bool {
    upscale_valid_spec(d) && !is_one_to_one_spec(d) && sel.active != UpscalerType::Passthrough
}

/// Whether the dispatcher would consult a fresh pipeline-initialization
/// outcome on this call: the dispatch needs the pipeline and the cache was
/// never initialized. The boundary layer calls this first and runs the
/// expensive initialization only when it answers true.
pub fn dispatch_needs_pipeline(
    selection: &SelectionState,
    cache: &PipelineCache,
    desc: Option<&DispatchDesc>,
) -> (r: bool)
    ensures
        r == (match desc {
            Some(dd) => match *dd {
                DispatchDesc::Upscale(d) => upscale_needs_pipeline_spec(d, *selection) && (*cache
                    is Uninit),
                _ => false,
            },
            None => false,
        }),
{
    let d = match desc {
        Some(DispatchDesc::Upscale(d)) => d,
        _ => {
            return false;
        },
    };
    if d.command_list == 0 || d.color.resource == 0 || d.output.resource == 0 {
        return false;
    }
    let rw: u32 = if d.render_size.width > 0 {
        d.render_size.width
    } else {
        d.color.description.width
    };
    let rh: u32 = if d.render_size.height > 0 {
        d.render_size.height
    } else {
        d.color.description.height
    };
    if rw == d.output.description.width && rh == d.output.description.height {
        return false;
    }
    match selection.active {
        UpscalerType::Passthrough => false,
        _ => cache.needs_init(),
    }
}

/// Dispatch one descriptor: the top of the engine's state machine.
///
/// An absent descriptor (a null pointer on the wire) is the parameter error;
/// an unrecognized tag is the unknown-descriptor-type error; reactive-mask
/// generation is accepted and records nothing. An upscale dispatch first
/// validates its handles, then selects its variant: the one-to-one copy fast
/// path when the source region already has the output extent, the region
/// copy under a passthrough selection, and otherwise a shader path — the
/// diagnostic grid when the debug toggle is on, the plain resample when it
/// is off. Only a shader path touches the pipeline cache: `fresh` is the
/// outcome of an initialization attempt, consumed exactly when the cache was
/// never initialized (first call wins, success or failure alike; the
/// boundary layer uses [`dispatch_needs_pipeline`] to run the attempt only
/// then). A shader path with no pipeline reports the generic error and
/// records nothing; GPU-level failure never surfaces as anything but the
/// status code.
pub fn handle_dispatch(
    selection: &SelectionState,
    cache: &mut PipelineCache,
    fresh: Option<PipelineBundle>,
    formats: &NativeFormats,
    desc: Option<&DispatchDesc>,
) -> (r: (u32, DispatchPlan))
    ensures
        *final(cache) == (match desc {
            Some(dd) => match *dd {
                DispatchDesc::Upscale(d) => {
                    if upscale_needs_pipeline_spec(d, *selection) {
                        old(cache).resolved_spec(fresh)
                    } else {
                        *old(cache)
                    }
                },
                _ => *old(cache),
            },
            None => *old(cache),
        }),
        match desc {
            None => r.0 == FFX_API_RETURN_ERROR_PARAMETER && r.1.is_empty_spec(),
            Some(dd) => match *dd {
                DispatchDesc::GenerateReactiveMask => r.0 == FFX_API_RETURN_OK
                    && r.1.is_empty_spec(),
                DispatchDesc::Other(_) => r.0 == FFX_API_RETURN_ERROR_UNKNOWN_DESCTYPE
                    && r.1.is_empty_spec(),
                DispatchDesc::Upscale(d) => {
                    if !upscale_valid_spec(d) {
                        r.0 == FFX_API_RETURN_ERROR_PARAMETER && r.1.is_empty_spec()
                    } else if is_one_to_one_spec(d) {
                        &&& r.0 == FFX_API_RETURN_OK
                        &&& r.1.barriers_in@ == copy_barriers_in_spec(d)
                        &&& r.1.work@ == seq![
                            WorkCommand::CopyFull { src: d.color.resource, dst: d.output.resource },
                        ]
                        &&& r.1.barriers_out@ == copy_barriers_out_spec(d)
                    } else if selection.active == UpscalerType::Passthrough {
                        &&& r.0 == FFX_API_RETURN_OK
                        &&& r.1.barriers_in@ == copy_barriers_in_spec(d)
                        &&& r.1.work@ == seq![
                            WorkCommand::CopyRegion {
                                src: d.color.resource,
                                dst: d.output.resource,
                                width: region_width_spec(d),
                                height: region_height_spec(d),
                            },
                        ]
                        &&& r.1.barriers_out@ == copy_barriers_out_spec(d)
                    } else {
                        match *final(cache) {
                            PipelineCache::Ready(_) => {
                                if selection.debug_view {
                                    if d.output.description.width == 0
                                        || d.output.description.height == 0 {
                                        r.0 == FFX_API_RETURN_ERROR && r.1.is_empty_spec()
                                    } else {
                                        &&& r.0 == FFX_API_RETURN_OK
                                        &&& r.1.barriers_in@ == debug_barriers_in_spec(d)
                                        &&& r.1.work@ == debug_work_spec(d, *formats)
                                        &&& r.1.barriers_out@ == debug_barriers_out_spec(d)
                                    }
                                } else {
                                    if has_zero_extent_spec(d) {
                                        r.0 == FFX_API_RETURN_ERROR && r.1.is_empty_spec()
                                    } else {
                                        &&& r.0 == FFX_API_RETURN_OK
                                        &&& r.1.barriers_in@ == shader_barriers_in_spec(d)
                                        &&& r.1.work@ == resample_work_spec(d, *formats, *selection)
                                        &&& r.1.barriers_out@ == shader_barriers_out_spec(d)
                                    }
                                }
                            },
                            _ => r.0 == FFX_API_RETURN_ERROR && r.1.is_empty_spec(),
                        }
                    }
                },
            },
        },
{
    let d = match desc {
        None => {
            return (FFX_API_RETURN_ERROR_PARAMETER, DispatchPlan::empty());
        },
        Some(DispatchDesc::GenerateReactiveMask) => {
            return (FFX_API_RETURN_OK, DispatchPlan::empty());
        },
        Some(DispatchDesc::Other(_)) => {
            return (FFX_API_RETURN_ERROR_UNKNOWN_DESCTYPE, DispatchPlan::empty());
        },
        Some(DispatchDesc::Upscale(d)) => d,
    };
    if d.command_list == 0 || d.color.resource == 0 || d.output.resource == 0 {
        return (FFX_API_RETURN_ERROR_PARAMETER, DispatchPlan::empty());
    }
    let rw: u32 = if d.render_size.width > 0 {
        d.render_size.width
    } else {
        d.color.description.width
    };
    let rh: u32 = if d.render_size.height > 0 {
        d.render_size.height
    } else {
        d.color.description.height
    };
    if rw == d.output.description.width && rh == d.output.description.height {
        return dispatch_anti_aliasing(d);
    }
    match selection.active {
        UpscalerType::Passthrough => {
            return dispatch_passthrough_copy(d);
        },
        _ => {},
    }
    match cache.get_or_init(fresh) {
        None => (FFX_API_RETURN_ERROR, DispatchPlan::empty()),
        Some(_) => {
            if selection.debug_view {
                dispatch_debug_view(d, formats)
            } else {
                dispatch_upscale(d, formats, selection)
            }
        },
    }
}

// ---- The restoration law ----

/// A barrier whose target is the translation of a state the dispatch
/// declared for that very resource: the barrier puts the resource back where
/// its caller said it lives.
pub open spec fn barrier_restores_declared(d: UpscaleDispatchDesc, b: BarrierDesc) -> bool {
    ||| (b.resource == d.color.resource && b.state_after == translate_state_spec(d.color.state))
    ||| (b.resource == d.output.resource && b.state_after == translate_state_spec(d.output.state))
    ||| (b.resource == d.motion_vectors.resource && b.state_after == translate_state_spec(
        d.motion_vectors.state,
    ))
    ||| (b.resource == d.transparency_and_composition.resource && b.state_after
        == translate_state_spec(d.transparency_and_composition.state))
    ||| (b.resource == d.dilated_depth.resource && b.state_after == translate_state_spec(
        d.dilated_depth.state,
    ))
    ||| (b.resource == d.reconstructed_prev_nearest_depth.resource && b.state_after
        == translate_state_spec(d.reconstructed_prev_nearest_depth.state))
    ||| (b.resource == d.reactive.resource && b.state_after == translate_state_spec(
        d.reactive.state,
    ))
    ||| (b.resource == d.depth.resource && b.state_after == translate_state_spec(d.depth.state))
}

/// Every barrier of the batch restores a state the dispatch declared.
pub open spec fn all_restore_declared(d: UpscaleDispatchDesc, s: Seq<BarrierDesc>) -> bool {
    forall|i: int| 0 <= i < s.len() ==> barrier_restores_declared(d, #[trigger] s[i])
}

/// Every barrier of the batch targets the given resource's declared state.
spec fn restores_to(s: Seq<BarrierDesc>, resource: u64, declared: u32) -> bool {
    forall|i: int|
        0 <= i < s.len() ==> (#[trigger] s[i]).resource == resource && s[i].state_after
            == translate_state_spec(declared)
}

proof fn lemma_transition_out_restores(resource: u64, working: u32, declared: u32)
    ensures
        restores_to(barrier_seq(transition_out_spec(resource, working, declared)), resource, declared),
{
}

proof fn lemma_tile_out_restores(res: FfxApiResource)
    ensures
        restores_to(tile_barrier_out_spec(res), res.resource, res.state),
{
    if res.resource != 0 {
        lemma_transition_out_restores(res.resource, NATIVE_STATE_PIXEL_SHADER_RESOURCE, res.state);
    }
}

/// A batch that restores one declared resource restores declared states.
proof fn lemma_restores_to_lifts(
    d: UpscaleDispatchDesc,
    s: Seq<BarrierDesc>,
    resource: u64,
    declared: u32,
)
    requires
        restores_to(s, resource, declared),
        ({
            ||| (resource == d.color.resource && declared == d.color.state)
            ||| (resource == d.output.resource && declared == d.output.state)
            ||| (resource == d.motion_vectors.resource && declared == d.motion_vectors.state)
            ||| (resource == d.transparency_and_composition.resource && declared
                == d.transparency_and_composition.state)
            ||| (resource == d.dilated_depth.resource && declared == d.dilated_depth.state)
            ||| (resource == d.reconstructed_prev_nearest_depth.resource && declared
                == d.reconstructed_prev_nearest_depth.state)
            ||| (resource == d.reactive.resource && declared == d.reactive.state)
            ||| (resource == d.depth.resource && declared == d.depth.state)
        }),
    ensures
        all_restore_declared(d, s),
{
}

/// Restoration is kept under coalescing: a batch made of restoring batches
/// restores.
proof fn lemma_all_restore_concat(d: UpscaleDispatchDesc, a: Seq<BarrierDesc>, b: Seq<BarrierDesc>)
    requires
        all_restore_declared(d, a),
        all_restore_declared(d, b),
    ensures
        all_restore_declared(d, a + b),
{
    assert forall|i: int| 0 <= i < (a + b).len() implies barrier_restores_declared(
        d,
        #[trigger] (a + b)[i],
    ) by {
        if i < a.len() {
            assert((a + b)[i] == a[i]);
        } else {
            assert((a + b)[i] == b[i - a.len()]);
        }
    }
}

/// The restoration law: whatever variant a dispatch takes, its transition-out
/// batch returns every touched resource to the abstract state its caller
/// declared — the working states a plan moves through are invisible after it.
pub proof fn lemma_every_path_restores_declared_states(d: UpscaleDispatchDesc)
    ensures
        all_restore_declared(d, copy_barriers_out_spec(d)),
        all_restore_declared(d, shader_barriers_out_spec(d)),
        all_restore_declared(d, debug_barriers_out_spec(d)),
{
    let color_copy = barrier_seq(
        transition_out_spec(d.color.resource, NATIVE_STATE_COPY_SOURCE, d.color.state),
    );
    let output_copy = barrier_seq(
        transition_out_spec(d.output.resource, NATIVE_STATE_COPY_DEST, d.output.state),
    );
    lemma_transition_out_restores(d.color.resource, NATIVE_STATE_COPY_SOURCE, d.color.state);
    lemma_restores_to_lifts(d, color_copy, d.color.resource, d.color.state);
    lemma_transition_out_restores(d.output.resource, NATIVE_STATE_COPY_DEST, d.output.state);
    lemma_restores_to_lifts(d, output_copy, d.output.resource, d.output.state);
    lemma_all_restore_concat(d, color_copy, output_copy);

    let color_shader = barrier_seq(
        transition_out_spec(d.color.resource, NATIVE_STATE_PIXEL_SHADER_RESOURCE, d.color.state),
    );
    let output_shader = barrier_seq(
        transition_out_spec(d.output.resource, NATIVE_STATE_RENDER_TARGET, d.output.state),
    );
    lemma_transition_out_restores(
        d.color.resource,
        NATIVE_STATE_PIXEL_SHADER_RESOURCE,
        d.color.state,
    );
    lemma_restores_to_lifts(d, color_shader, d.color.resource, d.color.state);
    lemma_transition_out_restores(d.output.resource, NATIVE_STATE_RENDER_TARGET, d.output.state);
    lemma_restores_to_lifts(d, output_shader, d.output.resource, d.output.state);
    lemma_all_restore_concat(d, color_shader, output_shader);

    lemma_tile_out_restores(d.color);
    lemma_restores_to_lifts(d, tile_barrier_out_spec(d.color), d.color.resource, d.color.state);
    lemma_tile_out_restores(d.motion_vectors);
    lemma_restores_to_lifts(
        d,
        tile_barrier_out_spec(d.motion_vectors),
        d.motion_vectors.resource,
        d.motion_vectors.state,
    );
    lemma_tile_out_restores(d.transparency_and_composition);
    lemma_restores_to_lifts(
        d,
        tile_barrier_out_spec(d.transparency_and_composition),
        d.transparency_and_composition.resource,
        d.transparency_and_composition.state,
    );
    lemma_tile_out_restores(d.dilated_depth);
    lemma_restores_to_lifts(
        d,
        tile_barrier_out_spec(d.dilated_depth),
        d.dilated_depth.resource,
        d.dilated_depth.state,
    );
    lemma_tile_out_restores(d.reconstructed_prev_nearest_depth);
    lemma_restores_to_lifts(
        d,
        tile_barrier_out_spec(d.reconstructed_prev_nearest_depth),
        d.reconstructed_prev_nearest_depth.resource,
        d.reconstructed_prev_nearest_depth.state,
    );
    lemma_tile_out_restores(d.reactive);
    lemma_restores_to_lifts(
        d,
        tile_barrier_out_spec(d.reactive),
        d.reactive.resource,
        d.reactive.state,
    );
    lemma_tile_out_restores(d.depth);
    lemma_restores_to_lifts(d, tile_barrier_out_spec(d.depth), d.depth.resource, d.depth.state);

    let t0 = tile_barrier_out_spec(d.color);
    let t1 = tile_barrier_out_spec(d.motion_vectors);
    let t2 = tile_barrier_out_spec(d.transparency_and_composition);
    let t3 = tile_barrier_out_spec(d.dilated_depth);
    let t4 = tile_barrier_out_spec(d.reconstructed_prev_nearest_depth);
    let t5 = tile_barrier_out_spec(d.reactive);
    let t6 = tile_barrier_out_spec(d.depth);
    lemma_all_restore_concat(d, t0, t1);
    lemma_all_restore_concat(d, t0 + t1, t2);
    lemma_all_restore_concat(d, t0 + t1 + t2, t3);
    lemma_all_restore_concat(d, t0 + t1 + t2 + t3, t4);
    lemma_all_restore_concat(d, t0 + t1 + t2 + t3 + t4, t5);
    lemma_all_restore_concat(d, t0 + t1 + t2 + t3 + t4 + t5, t6);
    lemma_all_restore_concat(d, t0 + t1 + t2 + t3 + t4 + t5 + t6, output_shader);
}

} // verus!
