//! The descriptor payloads a caller chains together for context creation,
//! configuration and queries.
//!
//! Each wire descriptor embeds the common header as its first field; here
//! every family is a closed tagged enum whose variants carry strongly typed
//! payloads, and the header view needed by the chain walker is derived from
//! the variant (or kept verbatim for an unrecognized node).

use crate::api::{
    ffxApiHeader, Tagged, FFX_API_CONFIGURE_DESC_TYPE_GLOBALDEBUG1,
    FFX_API_CONFIGURE_DESC_TYPE_UPSCALE_KEYVALUE, FFX_API_CREATE_CONTEXT_DESC_TYPE_BACKEND_DX12,
    FFX_API_CREATE_CONTEXT_DESC_TYPE_UPSCALE, FFX_API_QUERY_DESC_TYPE_UPSCALE_GETJITTEROFFSET,
    FFX_API_QUERY_DESC_TYPE_UPSCALE_GETJITTERPHASECOUNT,
    FFX_API_QUERY_DESC_TYPE_UPSCALE_GETRENDERRESOLUTIONFROMQUALITYMODE,
    FFX_API_QUERY_DESC_TYPE_UPSCALE_GETUPSCALERATIOFROMQUALITYMODE,
};
use crate::types::FfxApiDimensions2D;
use vstd::prelude::*;

verus! {

// ---- Context-creation descriptors ----

/// Parameters of an upscale context: creation flags, the largest render and
/// upscale extents, and an optional message callback (opaque handle, zero
/// for none).
#[derive(Clone, Copy, PartialEq, Eq, Structural, Debug)]
pub struct ffxCreateContextDescUpscale {
    pub flags: u32,
    pub max_render_size: FfxApiDimensions2D,
    pub max_upscale_size: FfxApiDimensions2D,
    pub fp_message: u64,
}

/// Backend selection: the borrowed native device handle (zero for null).
#[derive(Clone, Copy, PartialEq, Eq, Structural, Debug)]
pub struct ffxCreateBackendDX12Desc {
    pub device: u64,
}

/// One node of a context-creation descriptor chain.
#[derive(Clone, Copy, PartialEq, Eq, Structural, Debug)]
pub enum CreateDesc {
    Upscale(ffxCreateContextDescUpscale),
    BackendDx12(ffxCreateBackendDX12Desc),
    /// A node of a type this library does not interpret; its header tag is
    /// kept so the chain walker still sees it.
    Other(ffxApiHeader),
}

impl Tagged for CreateDesc {
    open spec fn tag_spec(&self) -> u64 {
        match self {
            CreateDesc::Upscale(_) => FFX_API_CREATE_CONTEXT_DESC_TYPE_UPSCALE,
            CreateDesc::BackendDx12(_) => FFX_API_CREATE_CONTEXT_DESC_TYPE_BACKEND_DX12,
            CreateDesc::Other(h) => h.type_,
        }
    }

    fn tag(&self) -> u64 {
        match self {
            CreateDesc::Upscale(_) => FFX_API_CREATE_CONTEXT_DESC_TYPE_UPSCALE,
            CreateDesc::BackendDx12(_) => FFX_API_CREATE_CONTEXT_DESC_TYPE_BACKEND_DX12,
            CreateDesc::Other(h) => h.type_,
        }
    }
}

// ---- Configure descriptors ----

/// Global debug configuration: a message callback handle and a level.
#[derive(Clone, Copy, PartialEq, Eq, Structural, Debug)]
pub struct ffxConfigureDescGlobalDebug1 {
    pub fp_message: u64,
    pub debug_level: u32,
}

/// A key/value configuration pair for the upscale effect.
#[derive(Clone, Copy, PartialEq, Eq, Structural, Debug)]
pub struct ffxConfigureDescUpscaleKeyValue {
    pub key: u64,
    pub u64_val: u64,
    pub ptr: u64,
}

/// One node of a configure descriptor chain.
#[derive(Clone, Copy, PartialEq, Eq, Structural, Debug)]
pub enum ConfigureDesc {
    GlobalDebug1(ffxConfigureDescGlobalDebug1),
    KeyValue(ffxConfigureDescUpscaleKeyValue),
    Other(ffxApiHeader),
}

impl Tagged for ConfigureDesc {
    open spec fn tag_spec(&self) -> u64 {
        match self {
            ConfigureDesc::GlobalDebug1(_) => FFX_API_CONFIGURE_DESC_TYPE_GLOBALDEBUG1,
            ConfigureDesc::KeyValue(_) => FFX_API_CONFIGURE_DESC_TYPE_UPSCALE_KEYVALUE,
            ConfigureDesc::Other(h) => h.type_,
        }
    }

    fn tag(&self) -> u64 {
        match self {
            ConfigureDesc::GlobalDebug1(_) => FFX_API_CONFIGURE_DESC_TYPE_GLOBALDEBUG1,
            ConfigureDesc::KeyValue(_) => FFX_API_CONFIGURE_DESC_TYPE_UPSCALE_KEYVALUE,
            ConfigureDesc::Other(h) => h.type_,
        }
    }
}

// ---- Query descriptors ----

/// Query: the scale ratio of a quality mode.
#[derive(Clone, Copy, PartialEq, Eq, Structural, Debug)]
pub struct ffxQueryDescUpscaleGetUpscaleRatioFromQualityMode {
    pub quality_mode: u32,
}

/// Query: the render resolution for a display size and quality mode.
#[derive(Clone, Copy, PartialEq, Eq, Structural, Debug)]
pub struct ffxQueryDescUpscaleGetRenderResolutionFromQualityMode {
    pub display_width: u32,
    pub display_height: u32,
    pub quality_mode: u32,
}

/// Query: the jitter phase count for a render/display width pair.
#[derive(Clone, Copy, PartialEq, Eq, Structural, Debug)]
pub struct ffxQueryDescUpscaleGetJitterPhaseCount {
    pub render_width: u32,
    pub display_width: u32,
}

/// Query: the jitter offset of a frame index.
#[derive(Clone, Copy, PartialEq, Eq, Structural, Debug)]
pub struct ffxQueryDescUpscaleGetJitterOffset {
    pub index: i32,
    pub phase_count: i32,
}

/// One query descriptor. On the wire each variant also carries the output
/// pointers the caller wants filled; the boundary layer owns those and
/// writes whichever are non-null from the returned answer.
#[derive(Clone, Copy, PartialEq, Eq, Structural, Debug)]
pub enum QueryDesc {
    UpscaleRatio(ffxQueryDescUpscaleGetUpscaleRatioFromQualityMode),
    RenderResolution(ffxQueryDescUpscaleGetRenderResolutionFromQualityMode),
    JitterPhaseCount(ffxQueryDescUpscaleGetJitterPhaseCount),
    JitterOffset(ffxQueryDescUpscaleGetJitterOffset),
    Other(ffxApiHeader),
}

impl Tagged for QueryDesc {
    open spec fn tag_spec(&self) -> u64 {
        match self {
            QueryDesc::UpscaleRatio(_) => FFX_API_QUERY_DESC_TYPE_UPSCALE_GETUPSCALERATIOFROMQUALITYMODE,
            QueryDesc::RenderResolution(
                _,
            ) => FFX_API_QUERY_DESC_TYPE_UPSCALE_GETRENDERRESOLUTIONFROMQUALITYMODE,
            QueryDesc::JitterPhaseCount(_) => FFX_API_QUERY_DESC_TYPE_UPSCALE_GETJITTERPHASECOUNT,
            QueryDesc::JitterOffset(_) => FFX_API_QUERY_DESC_TYPE_UPSCALE_GETJITTEROFFSET,
            QueryDesc::Other(h) => h.type_,
        }
    }

    fn tag(&self) -> u64 {
        match self {
            QueryDesc::UpscaleRatio(_) => FFX_API_QUERY_DESC_TYPE_UPSCALE_GETUPSCALERATIOFROMQUALITYMODE,
            QueryDesc::RenderResolution(
                _,
            ) => FFX_API_QUERY_DESC_TYPE_UPSCALE_GETRENDERRESOLUTIONFROMQUALITYMODE,
            QueryDesc::JitterPhaseCount(_) => FFX_API_QUERY_DESC_TYPE_UPSCALE_GETJITTERPHASECOUNT,
            QueryDesc::JitterOffset(_) => FFX_API_QUERY_DESC_TYPE_UPSCALE_GETJITTEROFFSET,
            QueryDesc::Other(h) => h.type_,
        }
    }
}

} // verus!
