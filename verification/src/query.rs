//! The query and configure entry handlers.
//!
//! A query computes its answer unconditionally from the descriptor's inputs;
//! which output pointers the caller supplied — and so which parts of the
//! answer are written back — is the boundary layer's concern, and a null
//! output pointer merely skips that write. Configuration is accepted and
//! logged by the boundary layer; it has no semantic effect in this core.

use crate::api::{
    FFX_API_RETURN_ERROR_PARAMETER, FFX_API_RETURN_ERROR_UNKNOWN_DESCTYPE, FFX_API_RETURN_OK,
};
use crate::desc::{ConfigureDesc, QueryDesc};
use crate::quality::{
    jitter_den_spec, jitter_num_spec, jitter_offset, jitter_phase_count, jitter_phase_count_spec,
    ratio_for_quality, ratio_tenths_spec, render_resolution, rounded_dim_spec, JitterSample,
};
use vstd::prelude::*;

verus! {

/// The values a query computes. The scale ratio is in tenths and a jitter
/// coordinate is an exact rational; the boundary layer renders both into the
/// wire's floating-point fields.
#[derive(Clone, Copy, PartialEq, Eq, Structural, Debug)]
pub enum QueryAnswer {
    UpscaleRatio { ratio_tenths: u32 },
    RenderResolution { render_width: u32, render_height: u32 },
    JitterPhaseCount { phase_count: i32 },
    JitterOffset(JitterSample),
}

/// Answer one query descriptor.
///
/// An absent descriptor (a null pointer on the wire) is the parameter error;
/// an unrecognized tag is the unknown-descriptor-type error; every
/// recognized query succeeds, with the answer pinned to the query engine's
/// arithmetic.
pub fn handle_query(desc: Option<&QueryDesc>) -> (r: (u32, Option<QueryAnswer>))
    ensures
        match desc {
            None => r.0 == FFX_API_RETURN_ERROR_PARAMETER && r.1 is None,
            Some(q) => match *q {
                QueryDesc::UpscaleRatio(p) => r.0 == FFX_API_RETURN_OK && r.1 == Some(
                    QueryAnswer::UpscaleRatio { ratio_tenths: ratio_tenths_spec(p.quality_mode) },
                ),
                QueryDesc::RenderResolution(p) => {
                    &&& r.0 == FFX_API_RETURN_OK
                    &&& r.1 matches Some(QueryAnswer::RenderResolution { render_width, render_height })
                    &&& (r.1 matches Some(
                        QueryAnswer::RenderResolution { render_width, render_height },
                    ) ==> render_width == rounded_dim_spec(
                        p.display_width,
                        ratio_tenths_spec(p.quality_mode),
                    ) && render_height == rounded_dim_spec(
                        p.display_height,
                        ratio_tenths_spec(p.quality_mode),
                    ))
                },
                QueryDesc::JitterPhaseCount(p) => r.0 == FFX_API_RETURN_OK && r.1 == Some(
                    QueryAnswer::JitterPhaseCount {
                        phase_count: jitter_phase_count_spec(p.render_width, p.display_width) as i32,
                    },
                ),
                QueryDesc::JitterOffset(p) => {
                    &&& r.0 == FFX_API_RETURN_OK
                    &&& r.1 matches Some(QueryAnswer::JitterOffset(s))
                    &&& (r.1 matches Some(QueryAnswer::JitterOffset(s)) ==> {
                        &&& s.x_num == jitter_num_spec(p.index as int, p.phase_count as int, 2)
                        &&& s.x_den == jitter_den_spec(p.index as int, p.phase_count as int, 2)
                        &&& s.y_num == jitter_num_spec(p.index as int, p.phase_count as int, 3)
                        &&& s.y_den == jitter_den_spec(p.index as int, p.phase_count as int, 3)
                        &&& -s.x_den <= 2 * s.x_num < s.x_den
                        &&& -s.y_den <= 2 * s.y_num < s.y_den
                    })
                },
                QueryDesc::Other(_) => r.0 == FFX_API_RETURN_ERROR_UNKNOWN_DESCTYPE && r.1 is None,
            },
        },
{
    let q = match desc {
        None => {
            return (FFX_API_RETURN_ERROR_PARAMETER, None);
        },
        Some(q) => q,
    };
    match q {
        QueryDesc::UpscaleRatio(p) => {
            let ratio: u32 = ratio_for_quality(p.quality_mode);
            (FFX_API_RETURN_OK, Some(QueryAnswer::UpscaleRatio { ratio_tenths: ratio }))
        },
        QueryDesc::RenderResolution(p) => {
            let (w, h) = render_resolution(p.display_width, p.display_height, p.quality_mode);
            (
                FFX_API_RETURN_OK,
                Some(QueryAnswer::RenderResolution { render_width: w, render_height: h }),
            )
        },
        QueryDesc::JitterPhaseCount(p) => {
            let count: i32 = jitter_phase_count(p.render_width, p.display_width);
            (FFX_API_RETURN_OK, Some(QueryAnswer::JitterPhaseCount { phase_count: count }))
        },
        QueryDesc::JitterOffset(p) => {
            let sample: JitterSample = jitter_offset(p.index, p.phase_count);
            (FFX_API_RETURN_OK, Some(QueryAnswer::JitterOffset(sample)))
        },
        QueryDesc::Other(_) => (FFX_API_RETURN_ERROR_UNKNOWN_DESCTYPE, None),
    }
}

/// Accept a configure descriptor. Configuration is logged at the boundary
/// and carries no semantic effect here, so every call — a null chain
/// included — reports success.
pub fn handle_configure(desc: Option<&ConfigureDesc>) -> (status: u32)
    ensures
        status == FFX_API_RETURN_OK,
{
    let _ = desc;
    FFX_API_RETURN_OK
}

} // verus!
