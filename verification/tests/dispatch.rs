use upscale_shim::api::ffxApiHeader;
use upscale_shim::desc::{
    ffxQueryDescUpscaleGetJitterOffset, ffxQueryDescUpscaleGetJitterPhaseCount,
    ffxQueryDescUpscaleGetRenderResolutionFromQualityMode,
    ffxQueryDescUpscaleGetUpscaleRatioFromQualityMode, ConfigureDesc, QueryDesc,
};
use upscale_shim::dispatch::{
    dispatch_needs_pipeline, handle_dispatch, DispatchDesc, DispatchPlan, DrawConstants,
    NativeFormats, PsoVariant, UpscaleDispatchDesc, WorkCommand,
};
use upscale_shim::pipeline::{typed_view_format, PipelineBundle, PipelineCache};
use upscale_shim::query::{handle_configure, handle_query, QueryAnswer};
use upscale_shim::state::BarrierDesc;
use upscale_shim::types::{FfxApiDimensions2D, FfxApiResource, FfxApiResourceDescription};
use upscale_shim::upscaler_type::{SelectionState, UpscalerType};

// Abstract state bits and native state values used by the scenarios.
const PIXEL_COMPUTE_READ: u32 = 0xc;
const RENDER_TARGET_BIT: u32 = 0x100;
const COPY_SRC_BIT: u32 = 0x10;
const UAV_BIT: u32 = 0x2;
const NATIVE_RT: u32 = 0x4;
const NATIVE_UAV: u32 = 0x8;
const NATIVE_NON_PIXEL_SRV: u32 = 0x40;
const NATIVE_PIXEL_SRV: u32 = 0x80;
const NATIVE_COPY_DEST: u32 = 0x400;
const NATIVE_COPY_SOURCE: u32 = 0x800;

fn resource(handle: u64, width: u32, height: u32, format: u32, state: u32) -> FfxApiResource {
    FfxApiResource {
        resource: handle,
        description: FfxApiResourceDescription {
            type_: 2,
            format,
            width,
            height,
            depth: 1,
            mip_count: 1,
            flags: 0,
            usage: 0,
        },
        state,
    }
}

fn null_resource() -> FfxApiResource {
    resource(0, 0, 0, 0, 0)
}

/// A dispatch rendering a 960x540 region of a 1920x1080 color texture into a
/// 1920x1080 output.
fn base_desc() -> UpscaleDispatchDesc {
    UpscaleDispatchDesc {
        command_list: 0xc0de,
        color: resource(0x11, 1920, 1080, 10, PIXEL_COMPUTE_READ),
        depth: null_resource(),
        motion_vectors: null_resource(),
        exposure: null_resource(),
        reactive: null_resource(),
        transparency_and_composition: null_resource(),
        dilated_depth: null_resource(),
        dilated_motion_vectors: null_resource(),
        reconstructed_prev_nearest_depth: null_resource(),
        output: resource(0x22, 1920, 1080, 10, RENDER_TARGET_BIT),
        render_size: FfxApiDimensions2D { width: 960, height: 540 },
        flags: 0,
    }
}

fn formats() -> NativeFormats {
    NativeFormats {
        color: 28,
        depth: 0,
        motion_vectors: 0,
        reactive: 0,
        transparency_and_composition: 0,
        dilated_depth: 0,
        reconstructed_prev_nearest_depth: 0,
    }
}

fn plan_is_empty(plan: &DispatchPlan) -> bool {
    plan.barriers_in.is_empty() && plan.work.is_empty() && plan.barriers_out.is_empty()
}

fn lanczos() -> SelectionState {
    SelectionState { active: UpscalerType::Lanczos, debug_view: false }
}

#[test]
fn null_recorder_is_parameter_error_with_no_work() {
    let mut d = base_desc();
    d.command_list = 0;
    let mut cache = PipelineCache::Uninit;
    let (status, plan) =
        handle_dispatch(&lanczos(), &mut cache, None, &formats(), Some(&DispatchDesc::Upscale(d)));
    assert_eq!(status, 6);
    assert!(plan_is_empty(&plan));
    assert_eq!(cache, PipelineCache::Uninit);
}

#[test]
fn null_resources_are_parameter_errors() {
    let mut cache = PipelineCache::Uninit;
    for missing in [0, 1] {
        let mut d = base_desc();
        if missing == 0 {
            d.color.resource = 0;
        } else {
            d.output.resource = 0;
        }
        let (status, plan) = handle_dispatch(
            &lanczos(),
            &mut cache,
            None,
            &formats(),
            Some(&DispatchDesc::Upscale(d)),
        );
        assert_eq!(status, 6);
        assert!(plan_is_empty(&plan));
    }
}

#[test]
fn absent_descriptor_is_parameter_error() {
    let mut cache = PipelineCache::Uninit;
    let (status, plan) = handle_dispatch(&lanczos(), &mut cache, None, &formats(), None);
    assert_eq!(status, 6);
    assert!(plan_is_empty(&plan));
}

#[test]
fn unknown_descriptor_type_is_rejected() {
    let mut cache = PipelineCache::Uninit;
    let other = DispatchDesc::Other(ffxApiHeader { type_: 0xdead });
    let (status, plan) = handle_dispatch(&lanczos(), &mut cache, None, &formats(), Some(&other));
    assert_eq!(status, 2);
    assert!(plan_is_empty(&plan));
}

#[test]
fn generate_reactive_mask_is_accepted_noop() {
    let mut cache = PipelineCache::Uninit;
    let (status, plan) = handle_dispatch(
        &lanczos(),
        &mut cache,
        None,
        &formats(),
        Some(&DispatchDesc::GenerateReactiveMask),
    );
    assert_eq!(status, 0);
    assert!(plan_is_empty(&plan));
    assert_eq!(cache, PipelineCache::Uninit);
}

#[test]
fn one_to_one_dispatch_takes_the_copy_fast_path() {
    // Render size equals the output extent: the plan must barrier for a copy
    // (copy-source/copy-destination), not for the shader (shader-readable/
    // render-target), and must not touch the pipeline cache.
    let mut d = base_desc();
    d.render_size = FfxApiDimensions2D { width: 1920, height: 1080 };
    let mut cache = PipelineCache::Uninit;
    let (status, plan) =
        handle_dispatch(&lanczos(), &mut cache, None, &formats(), Some(&DispatchDesc::Upscale(d)));
    assert_eq!(status, 0);
    assert_eq!(cache, PipelineCache::Uninit);
    assert_eq!(
        plan.barriers_in,
        vec![
            BarrierDesc {
                resource: 0x11,
                state_before: NATIVE_NON_PIXEL_SRV | NATIVE_PIXEL_SRV,
                state_after: NATIVE_COPY_SOURCE,
            },
            BarrierDesc {
                resource: 0x22,
                state_before: NATIVE_RT,
                state_after: NATIVE_COPY_DEST,
            },
        ]
    );
    assert_eq!(plan.work, vec![WorkCommand::CopyFull { src: 0x11, dst: 0x22 }]);
    assert_eq!(
        plan.barriers_out,
        vec![
            BarrierDesc {
                resource: 0x11,
                state_before: NATIVE_COPY_SOURCE,
                state_after: NATIVE_NON_PIXEL_SRV | NATIVE_PIXEL_SRV,
            },
            BarrierDesc {
                resource: 0x22,
                state_before: NATIVE_COPY_DEST,
                state_after: NATIVE_RT,
            },
        ]
    );
}

#[test]
fn zero_render_size_falls_back_to_color_extent() {
    // With no declared render size the source region is the full color
    // extent, which here equals the output extent: the one-to-one path.
    let mut d = base_desc();
    d.render_size = FfxApiDimensions2D { width: 0, height: 0 };
    let mut cache = PipelineCache::Uninit;
    let (status, plan) =
        handle_dispatch(&lanczos(), &mut cache, None, &formats(), Some(&DispatchDesc::Upscale(d)));
    assert_eq!(status, 0);
    assert_eq!(plan.work, vec![WorkCommand::CopyFull { src: 0x11, dst: 0x22 }]);
}

#[test]
fn passthrough_selection_copies_the_render_region() {
    let d = base_desc();
    let selection = SelectionState { active: UpscalerType::Passthrough, debug_view: false };
    let mut cache = PipelineCache::Uninit;
    let (status, plan) =
        handle_dispatch(&selection, &mut cache, None, &formats(), Some(&DispatchDesc::Upscale(d)));
    assert_eq!(status, 0);
    assert_eq!(cache, PipelineCache::Uninit);
    assert_eq!(
        plan.work,
        vec![WorkCommand::CopyRegion { src: 0x11, dst: 0x22, width: 960, height: 540 }]
    );
    assert_eq!(plan.barriers_in.len(), 2);
    assert_eq!(plan.barriers_in[0].state_after, NATIVE_COPY_SOURCE);
    assert_eq!(plan.barriers_in[1].state_after, NATIVE_COPY_DEST);
}

#[test]
fn resample_path_plans_one_fullscreen_triangle() {
    let d = base_desc();
    let mut cache = PipelineCache::Uninit;
    let bundle = PipelineBundle { device: 0x99, rt_format: 28 };
    let (status, plan) = handle_dispatch(
        &lanczos(),
        &mut cache,
        Some(bundle),
        &formats(),
        Some(&DispatchDesc::Upscale(d)),
    );
    assert_eq!(status, 0);
    assert_eq!(cache, PipelineCache::Ready(bundle));
    // Barriers: color to shader-readable, output to render-target... but the
    // output already declared the render-target state, so that one is elided.
    assert_eq!(
        plan.barriers_in,
        vec![BarrierDesc {
            resource: 0x11,
            state_before: NATIVE_NON_PIXEL_SRV | NATIVE_PIXEL_SRV,
            state_after: NATIVE_PIXEL_SRV,
        }]
    );
    assert_eq!(plan.barriers_out.len(), 1);
    assert_eq!(plan.work.len(), 4);
    assert_eq!(plan.work[0], WorkCommand::CreateTargetView { resource: 0x22 });
    assert_eq!(plan.work[1], WorkCommand::CreateShaderView { resource: 0x11, format: 28, slot: 0 });
    match &plan.work[2] {
        WorkCommand::Draw(draw) => {
            assert_eq!(draw.pso, PsoVariant::Lanczos);
            assert_eq!(draw.srv_slot, 0);
            assert_eq!(
                draw.constants,
                DrawConstants::Resample {
                    uv_scale_x_num: 960,
                    uv_scale_x_den: 1920,
                    uv_scale_y_num: 540,
                    uv_scale_y_den: 1080,
                    tex_width: 1920,
                    tex_height: 1080,
                }
            );
            assert_eq!((draw.viewport.x, draw.viewport.y), (0, 0));
            assert_eq!((draw.viewport.width, draw.viewport.height), (1920, 1080));
        },
        other => panic!("expected the resample draw, got {other:?}"),
    }
    assert_eq!(plan.work[3], WorkCommand::Overlay { width: 1920, height: 1080 });
}

#[test]
fn bilinear_selection_uses_the_bilinear_pipeline() {
    let d = base_desc();
    let selection = SelectionState { active: UpscalerType::Bilinear, debug_view: false };
    let mut cache = PipelineCache::Ready(PipelineBundle { device: 1, rt_format: 28 });
    let (status, plan) =
        handle_dispatch(&selection, &mut cache, None, &formats(), Some(&DispatchDesc::Upscale(d)));
    assert_eq!(status, 0);
    match &plan.work[2] {
        WorkCommand::Draw(draw) => assert_eq!(draw.pso, PsoVariant::Bilinear),
        other => panic!("expected the resample draw, got {other:?}"),
    }
}

#[test]
fn zero_extent_shader_dispatch_is_a_runtime_error() {
    let mut d = base_desc();
    d.color.description.width = 0;
    let mut cache = PipelineCache::Ready(PipelineBundle { device: 1, rt_format: 28 });
    let (status, plan) =
        handle_dispatch(&lanczos(), &mut cache, None, &formats(), Some(&DispatchDesc::Upscale(d)));
    assert_eq!(status, 1);
    assert!(plan_is_empty(&plan));
}

#[test]
fn pipeline_failure_is_cached_and_never_retried() {
    let d = base_desc();
    let mut cache = PipelineCache::Uninit;
    // First call: the initialization attempt failed.
    let (status, plan) =
        handle_dispatch(&lanczos(), &mut cache, None, &formats(), Some(&DispatchDesc::Upscale(d)));
    assert_eq!(status, 1);
    assert!(plan_is_empty(&plan));
    assert_eq!(cache, PipelineCache::Unavailable);
    // Second call: even a would-be-successful attempt is not consumed.
    let bundle = PipelineBundle { device: 7, rt_format: 28 };
    let (status, plan) = handle_dispatch(
        &lanczos(),
        &mut cache,
        Some(bundle),
        &formats(),
        Some(&DispatchDesc::Upscale(d)),
    );
    assert_eq!(status, 1);
    assert!(plan_is_empty(&plan));
    assert_eq!(cache, PipelineCache::Unavailable);
}

#[test]
fn first_successful_initialization_wins() {
    let d = base_desc();
    let mut cache = PipelineCache::Uninit;
    let first = PipelineBundle { device: 1, rt_format: 28 };
    let second = PipelineBundle { device: 2, rt_format: 10 };
    let (status, _) = handle_dispatch(
        &lanczos(),
        &mut cache,
        Some(first),
        &formats(),
        Some(&DispatchDesc::Upscale(d)),
    );
    assert_eq!(status, 0);
    assert_eq!(cache, PipelineCache::Ready(first));
    let (status, _) = handle_dispatch(
        &lanczos(),
        &mut cache,
        Some(second),
        &formats(),
        Some(&DispatchDesc::Upscale(d)),
    );
    assert_eq!(status, 0);
    assert_eq!(cache, PipelineCache::Ready(first));
}

#[test]
fn needs_pipeline_only_for_shader_paths_on_a_cold_cache() {
    let d = base_desc();
    let cold = PipelineCache::Uninit;
    let warm = PipelineCache::Ready(PipelineBundle { device: 1, rt_format: 28 });
    assert!(dispatch_needs_pipeline(&lanczos(), &cold, Some(&DispatchDesc::Upscale(d))));
    assert!(!dispatch_needs_pipeline(&lanczos(), &warm, Some(&DispatchDesc::Upscale(d))));
    let passthrough = SelectionState { active: UpscalerType::Passthrough, debug_view: false };
    assert!(!dispatch_needs_pipeline(&passthrough, &cold, Some(&DispatchDesc::Upscale(d))));
    let mut one_to_one = d;
    one_to_one.render_size = FfxApiDimensions2D { width: 1920, height: 1080 };
    assert!(!dispatch_needs_pipeline(&lanczos(), &cold, Some(&DispatchDesc::Upscale(one_to_one))));
    assert!(!dispatch_needs_pipeline(&lanczos(), &cold, Some(&DispatchDesc::GenerateReactiveMask)));
    assert!(!dispatch_needs_pipeline(&lanczos(), &cold, None));
}

#[test]
fn debug_view_draws_available_tiles_and_skips_the_rest() {
    let mut d = base_desc();
    // Motion vectors: present, declared as a two-channel float texture.
    d.motion_vectors = resource(0x31, 960, 540, 6, COPY_SRC_BIT);
    // Reactive mask: present but integer-typed on the device, so its tile is
    // skipped — while its barrier must still be emitted.
    d.reactive = resource(0x32, 960, 540, 7, UAV_BIT);
    let mut fmts = formats();
    fmts.reactive = 62;
    let selection = SelectionState { active: UpscalerType::Lanczos, debug_view: true };
    let mut cache = PipelineCache::Ready(PipelineBundle { device: 1, rt_format: 28 });
    let (status, plan) =
        handle_dispatch(&selection, &mut cache, None, &fmts, Some(&DispatchDesc::Upscale(d)));
    assert_eq!(status, 0);

    // Barriers: color, motion vectors and reactive move to shader-readable;
    // the output already sits in the render-target state (elided).
    assert_eq!(
        plan.barriers_in,
        vec![
            BarrierDesc {
                resource: 0x11,
                state_before: NATIVE_NON_PIXEL_SRV | NATIVE_PIXEL_SRV,
                state_after: NATIVE_PIXEL_SRV,
            },
            BarrierDesc {
                resource: 0x31,
                state_before: NATIVE_COPY_SOURCE,
                state_after: NATIVE_PIXEL_SRV,
            },
            BarrierDesc {
                resource: 0x32,
                state_before: NATIVE_UAV,
                state_after: NATIVE_PIXEL_SRV,
            },
        ]
    );

    // Work: bind and clear, center resample, one motion-vector tile, overlay.
    assert_eq!(plan.work.len(), 7);
    assert_eq!(plan.work[0], WorkCommand::CreateTargetView { resource: 0x22 });
    assert_eq!(plan.work[1], WorkCommand::ClearTarget);
    assert_eq!(plan.work[2], WorkCommand::CreateShaderView { resource: 0x11, format: 28, slot: 0 });
    match &plan.work[3] {
        WorkCommand::Draw(draw) => {
            assert_eq!(draw.pso, PsoVariant::Bilinear);
            // Center column: a fifth of 1920 on each side leaves 1152.
            assert_eq!((draw.viewport.x, draw.viewport.width), (384, 1152));
            assert_eq!((draw.viewport.y, draw.viewport.height), (0, 1080));
        },
        other => panic!("expected the center draw, got {other:?}"),
    }
    // Declared two-channel float resolves to its native two-channel float.
    assert_eq!(plan.work[4], WorkCommand::CreateShaderView { resource: 0x31, format: 16, slot: 2 });
    match &plan.work[5] {
        WorkCommand::Draw(draw) => {
            assert_eq!(draw.pso, PsoVariant::Debug);
            assert_eq!(draw.srv_slot, 2);
            assert_eq!(draw.constants, DrawConstants::DebugTile { viz_mode: 2 });
            // Top-left tile of the grid: 384 wide, 360 tall.
            assert_eq!((draw.viewport.x, draw.viewport.y), (0, 0));
            assert_eq!((draw.viewport.width, draw.viewport.height), (384, 360));
        },
        other => panic!("expected the tile draw, got {other:?}"),
    }
    assert_eq!(plan.work[6], WorkCommand::Overlay { width: 1920, height: 1080 });
    assert_eq!(plan.barriers_out.len(), 3);
}

#[test]
fn view_format_prefers_the_native_format() {
    // A typeless native format resolves to its filterable typed default.
    assert_eq!(typed_view_format(39, 10), Some(41));
    // A typed native format must be used exactly.
    assert_eq!(typed_view_format(28, 37), Some(28));
    // A typed integer native format is refused.
    assert_eq!(typed_view_format(62, 10), None);
    // With no native format the declared format decides.
    assert_eq!(typed_view_format(0, 28), Some(41));
    // Nothing known at all: no view.
    assert_eq!(typed_view_format(0, 0), None);
}

#[test]
fn query_upscale_ratio() {
    let q = QueryDesc::UpscaleRatio(ffxQueryDescUpscaleGetUpscaleRatioFromQualityMode {
        quality_mode: 2,
    });
    let (status, answer) = handle_query(Some(&q));
    assert_eq!(status, 0);
    assert_eq!(answer, Some(QueryAnswer::UpscaleRatio { ratio_tenths: 17 }));
}

#[test]
fn query_render_resolution() {
    let q = QueryDesc::RenderResolution(ffxQueryDescUpscaleGetRenderResolutionFromQualityMode {
        display_width: 3840,
        display_height: 2160,
        quality_mode: 3,
    });
    let (status, answer) = handle_query(Some(&q));
    assert_eq!(status, 0);
    assert_eq!(
        answer,
        Some(QueryAnswer::RenderResolution { render_width: 1920, render_height: 1080 })
    );
}

#[test]
fn query_jitter_phase_count() {
    let q = QueryDesc::JitterPhaseCount(ffxQueryDescUpscaleGetJitterPhaseCount {
        render_width: 960,
        display_width: 1920,
    });
    let (status, answer) = handle_query(Some(&q));
    assert_eq!(status, 0);
    assert_eq!(answer, Some(QueryAnswer::JitterPhaseCount { phase_count: 32 }));
}

#[test]
fn query_jitter_offset_is_centered() {
    let q = QueryDesc::JitterOffset(ffxQueryDescUpscaleGetJitterOffset {
        index: 11,
        phase_count: 32,
    });
    let (status, answer) = handle_query(Some(&q));
    assert_eq!(status, 0);
    match answer {
        Some(QueryAnswer::JitterOffset(s)) => {
            let x = s.x_num as f64 / s.x_den as f64;
            let y = s.y_num as f64 / s.y_den as f64;
            assert!((-0.5..0.5).contains(&x));
            assert!((-0.5..0.5).contains(&y));
        },
        other => panic!("expected a jitter offset, got {other:?}"),
    }
}

#[test]
fn query_unknown_type_is_rejected() {
    let q = QueryDesc::Other(ffxApiHeader { type_: 0xbeef });
    let (status, answer) = handle_query(Some(&q));
    assert_eq!(status, 2);
    assert_eq!(answer, None);
}

#[test]
fn query_null_descriptor_is_parameter_error() {
    let (status, answer) = handle_query(None);
    assert_eq!(status, 6);
    assert_eq!(answer, None);
}

#[test]
fn configure_always_succeeds() {
    assert_eq!(handle_configure(None), 0);
    let c = ConfigureDesc::Other(ffxApiHeader { type_: 0x1 });
    assert_eq!(handle_configure(Some(&c)), 0);
}
