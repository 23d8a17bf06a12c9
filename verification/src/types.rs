//! Plain-value models of the boundary protocol's data structures.
//!
//! On the wire these are C-layout structs; here each native pointer is an
//! opaque `u64` handle (zero for null), each fixed enum keeps its wire code
//! through explicit `code` functions, and every field the logic reads is a
//! plain integer. The boundary layer owns the bit-exact C layouts and
//! converts in both directions.

use vstd::prelude::*;

verus! {

// ---- Dimensions ----

/// A width/height pair (the general-API spelling).
#[derive(Clone, Copy, PartialEq, Eq, Structural, Debug)]
pub struct FfxApiDimensions2D {
    pub width: u32,
    pub height: u32,
}

/// A width/height pair (the effect-library spelling).
#[derive(Clone, Copy, PartialEq, Eq, Structural, Debug)]
pub struct FfxDimensions2D {
    pub width: u32,
    pub height: u32,
}

// ---- Resource descriptions ----

/// What kind of resource a description speaks of.
#[derive(Clone, Copy, PartialEq, Eq, Structural, Debug)]
pub enum FfxResourceType {
    Buffer,
    Texture1D,
    Texture2D,
    TextureCube,
    Texture3D,
}

impl FfxResourceType {
    /// The wire code of this resource type.
    pub open spec fn code_spec(self) -> u32 {
        match self {
            FfxResourceType::Buffer => 0,
            FfxResourceType::Texture1D => 1,
            FfxResourceType::Texture2D => 2,
            FfxResourceType::TextureCube => 3,
            FfxResourceType::Texture3D => 4,
        }
    }

    pub fn code(self) -> (r: u32)
        ensures
            r == self.code_spec(),
    {
        match self {
            FfxResourceType::Buffer => 0,
            FfxResourceType::Texture1D => 1,
            FfxResourceType::Texture2D => 2,
            FfxResourceType::TextureCube => 3,
            FfxResourceType::Texture3D => 4,
        }
    }
}

/// Allocation-level resource flags.
#[derive(Clone, Copy, PartialEq, Eq, Structural, Debug)]
pub enum FfxResourceFlags {
    NoFlags,
    Aliasable,
    Undefined,
}

impl FfxResourceFlags {
    /// The wire bit of this flag (the empty flag has no bit).
    pub open spec fn bits_spec(self) -> u32 {
        match self {
            FfxResourceFlags::NoFlags => 0x0,
            FfxResourceFlags::Aliasable => 0x1,
            FfxResourceFlags::Undefined => 0x2,
        }
    }

    pub fn bits(self) -> (r: u32)
        ensures
            r == self.bits_spec(),
    {
        match self {
            FfxResourceFlags::NoFlags => 0x0,
            FfxResourceFlags::Aliasable => 0x1,
            FfxResourceFlags::Undefined => 0x2,
        }
    }
}

/// An eight-field description of a resource as the caller declared it:
/// kind, surface format, extent, mip count, flags and usage bitmask. For a
/// buffer the width/height/depth fields carry size, stride and alignment.
#[derive(Clone, Copy, PartialEq, Eq, Structural, Debug)]
pub struct FfxApiResourceDescription {
    pub type_: u32,
    pub format: u32,
    pub width: u32,
    pub height: u32,
    pub depth: u32,
    pub mip_count: u32,
    pub flags: u32,
    pub usage: u32,
}

/// The effect-library spelling of the same description block.
#[derive(Clone, Copy, PartialEq, Eq, Structural, Debug)]
pub struct FfxResourceDescription {
    pub type_: u32,
    pub format: u32,
    pub width: u32,
    pub height: u32,
    pub depth: u32,
    pub mip_count: u32,
    pub flags: u32,
    pub usage: u32,
}

/// A caller-supplied resource record: the borrowed native handle (zero for
/// null — the caller keeps ownership and lifetime), its description, and the
/// caller-declared abstract state bitmask. The shim restores a resource to
/// this declared state after use, whatever it transitions through.
#[derive(Clone, Copy, PartialEq, Eq, Structural, Debug)]
pub struct FfxApiResource {
    pub resource: u64,
    pub description: FfxApiResourceDescription,
    pub state: u32,
}

impl FfxApiResource {
    /// A record whose handle is null stands for "no resource supplied".
    pub open spec fn is_null_spec(self) -> bool {
        self.resource == 0
    }

    pub fn is_null(&self) -> (r: bool)
        ensures
            r == self.is_null_spec(),
    {
        self.resource == 0
    }
}

/// Memory-usage totals reported for an effect.
#[derive(Clone, Copy, PartialEq, Eq, Structural, Debug)]
pub struct FfxApiEffectMemoryUsage {
    pub total_usage_in_bytes: u64,
    pub aliasable_usage_in_bytes: u64,
}

// ---- Surface formats ----

/// Caller-visible surface formats, in wire-code order.
#[derive(Clone, Copy, PartialEq, Eq, Structural, Debug)]
pub enum FfxSurfaceFormat {
    Unknown,
    R32G32B32A32Typeless,
    R32G32B32A32Uint,
    R32G32B32A32Float,
    R16G16B16A16Float,
    R32G32B32Float,
    R32G32Float,
    R8Uint,
    R32Uint,
    R8G8B8A8Typeless,
    R8G8B8A8Unorm,
    R8G8B8A8Snorm,
    R8G8B8A8Srgb,
    B8G8R8A8Typeless,
    B8G8R8A8Unorm,
    B8G8R8A8Srgb,
    R11G11B10Float,
    R10G10B10A2Unorm,
    R16G16Float,
    R16G16Uint,
    R16G16Sint,
    R16Float,
    R16Uint,
    R16Unorm,
    R16Snorm,
    R8Unorm,
    R8G8Unorm,
    R8G8Uint,
    R32Float,
    R9G9B9E5Sharedexp,
    R16G16B16A16Typeless,
    R32G32Typeless,
    R10G10B10A2Typeless,
    R16G16Typeless,
    R16Typeless,
    R8Typeless,
    R8G8Typeless,
    R32Typeless,
}

impl FfxSurfaceFormat {
    /// The wire code of this surface format: its position in the defined
    /// order.
    pub open spec fn code_spec(self) -> u32 {
        match self {
            FfxSurfaceFormat::Unknown => 0,
            FfxSurfaceFormat::R32G32B32A32Typeless => 1,
            FfxSurfaceFormat::R32G32B32A32Uint => 2,
            FfxSurfaceFormat::R32G32B32A32Float => 3,
            FfxSurfaceFormat::R16G16B16A16Float => 4,
            FfxSurfaceFormat::R32G32B32Float => 5,
            FfxSurfaceFormat::R32G32Float => 6,
            FfxSurfaceFormat::R8Uint => 7,
            FfxSurfaceFormat::R32Uint => 8,
            FfxSurfaceFormat::R8G8B8A8Typeless => 9,
            FfxSurfaceFormat::R8G8B8A8Unorm => 10,
            FfxSurfaceFormat::R8G8B8A8Snorm => 11,
            FfxSurfaceFormat::R8G8B8A8Srgb => 12,
            FfxSurfaceFormat::B8G8R8A8Typeless => 13,
            FfxSurfaceFormat::B8G8R8A8Unorm => 14,
            FfxSurfaceFormat::B8G8R8A8Srgb => 15,
            FfxSurfaceFormat::R11G11B10Float => 16,
            FfxSurfaceFormat::R10G10B10A2Unorm => 17,
            FfxSurfaceFormat::R16G16Float => 18,
            FfxSurfaceFormat::R16G16Uint => 19,
            FfxSurfaceFormat::R16G16Sint => 20,
            FfxSurfaceFormat::R16Float => 21,
            FfxSurfaceFormat::R16Uint => 22,
            FfxSurfaceFormat::R16Unorm => 23,
            FfxSurfaceFormat::R16Snorm => 24,
            FfxSurfaceFormat::R8Unorm => 25,
            FfxSurfaceFormat::R8G8Unorm => 26,
            FfxSurfaceFormat::R8G8Uint => 27,
            FfxSurfaceFormat::R32Float => 28,
            FfxSurfaceFormat::R9G9B9E5Sharedexp => 29,
            FfxSurfaceFormat::R16G16B16A16Typeless => 30,
            FfxSurfaceFormat::R32G32Typeless => 31,
            FfxSurfaceFormat::R10G10B10A2Typeless => 32,
            FfxSurfaceFormat::R16G16Typeless => 33,
            FfxSurfaceFormat::R16Typeless => 34,
            FfxSurfaceFormat::R8Typeless => 35,
            FfxSurfaceFormat::R8G8Typeless => 36,
            FfxSurfaceFormat::R32Typeless => 37,
        }
    }

    pub fn code(self) -> (r: u32)
        ensures
            r == self.code_spec(),
    {
        match self {
            FfxSurfaceFormat::Unknown => 0,
            FfxSurfaceFormat::R32G32B32A32Typeless => 1,
            FfxSurfaceFormat::R32G32B32A32Uint => 2,
            FfxSurfaceFormat::R32G32B32A32Float => 3,
            FfxSurfaceFormat::R16G16B16A16Float => 4,
            FfxSurfaceFormat::R32G32B32Float => 5,
            FfxSurfaceFormat::R32G32Float => 6,
            FfxSurfaceFormat::R8Uint => 7,
            FfxSurfaceFormat::R32Uint => 8,
            FfxSurfaceFormat::R8G8B8A8Typeless => 9,
            FfxSurfaceFormat::R8G8B8A8Unorm => 10,
            FfxSurfaceFormat::R8G8B8A8Snorm => 11,
            FfxSurfaceFormat::R8G8B8A8Srgb => 12,
            FfxSurfaceFormat::B8G8R8A8Typeless => 13,
            FfxSurfaceFormat::B8G8R8A8Unorm => 14,
            FfxSurfaceFormat::B8G8R8A8Srgb => 15,
            FfxSurfaceFormat::R11G11B10Float => 16,
            FfxSurfaceFormat::R10G10B10A2Unorm => 17,
            FfxSurfaceFormat::R16G16Float => 18,
            FfxSurfaceFormat::R16G16Uint => 19,
            FfxSurfaceFormat::R16G16Sint => 20,
            FfxSurfaceFormat::R16Float => 21,
            FfxSurfaceFormat::R16Uint => 22,
            FfxSurfaceFormat::R16Unorm => 23,
            FfxSurfaceFormat::R16Snorm => 24,
            FfxSurfaceFormat::R8Unorm => 25,
            FfxSurfaceFormat::R8G8Unorm => 26,
            FfxSurfaceFormat::R8G8Uint => 27,
            FfxSurfaceFormat::R32Float => 28,
            FfxSurfaceFormat::R9G9B9E5Sharedexp => 29,
            FfxSurfaceFormat::R16G16B16A16Typeless => 30,
            FfxSurfaceFormat::R32G32Typeless => 31,
            FfxSurfaceFormat::R10G10B10A2Typeless => 32,
            FfxSurfaceFormat::R16G16Typeless => 33,
            FfxSurfaceFormat::R16Typeless => 34,
            FfxSurfaceFormat::R8Typeless => 35,
            FfxSurfaceFormat::R8G8Typeless => 36,
            FfxSurfaceFormat::R32Typeless => 37,
        }
    }
}

// ---- Effect-library enums ----

/// Caller preference for the render-to-display ratio.
#[derive(Clone, Copy, PartialEq, Eq, Structural, Debug)]
pub enum FfxFsr3UpscalerQualityMode {
    NativeAA,
    Quality,
    Balanced,
    Performance,
    UltraPerformance,
}

impl FfxFsr3UpscalerQualityMode {
    /// The wire code of this quality mode.
    pub open spec fn code_spec(self) -> u32 {
        match self {
            FfxFsr3UpscalerQualityMode::NativeAA => 0,
            FfxFsr3UpscalerQualityMode::Quality => 1,
            FfxFsr3UpscalerQualityMode::Balanced => 2,
            FfxFsr3UpscalerQualityMode::Performance => 3,
            FfxFsr3UpscalerQualityMode::UltraPerformance => 4,
        }
    }

    pub fn code(self) -> (r: u32)
        ensures
            r == self.code_spec(),
    {
        match self {
            FfxFsr3UpscalerQualityMode::NativeAA => 0,
            FfxFsr3UpscalerQualityMode::Quality => 1,
            FfxFsr3UpscalerQualityMode::Balanced => 2,
            FfxFsr3UpscalerQualityMode::Performance => 3,
            FfxFsr3UpscalerQualityMode::UltraPerformance => 4,
        }
    }
}

/// Context-creation flag bits.
#[derive(Clone, Copy, PartialEq, Eq, Structural, Debug)]
pub enum FfxFsr3UpscalerInitializationFlagBits {
    EnableHighDynamicRange,
    EnableDisplayResolutionMotionVectors,
    EnableMotionVectorsJitterCancellation,
    EnableDepthInverted,
    EnableDepthInfinite,
    EnableAutoExposure,
    EnableDynamicResolution,
    EnableTexture1DUsage,
    EnableDebugChecking,
}

impl FfxFsr3UpscalerInitializationFlagBits {
    /// The wire bit of this flag.
    pub open spec fn bit_spec(self) -> u32 {
        match self {
            FfxFsr3UpscalerInitializationFlagBits::EnableHighDynamicRange => 0x1,
            FfxFsr3UpscalerInitializationFlagBits::EnableDisplayResolutionMotionVectors => 0x2,
            FfxFsr3UpscalerInitializationFlagBits::EnableMotionVectorsJitterCancellation => 0x4,
            FfxFsr3UpscalerInitializationFlagBits::EnableDepthInverted => 0x8,
            FfxFsr3UpscalerInitializationFlagBits::EnableDepthInfinite => 0x10,
            FfxFsr3UpscalerInitializationFlagBits::EnableAutoExposure => 0x20,
            FfxFsr3UpscalerInitializationFlagBits::EnableDynamicResolution => 0x40,
            FfxFsr3UpscalerInitializationFlagBits::EnableTexture1DUsage => 0x80,
            FfxFsr3UpscalerInitializationFlagBits::EnableDebugChecking => 0x100,
        }
    }

    pub fn bit(self) -> (r: u32)
        ensures
            r == self.bit_spec(),
    {
        match self {
            FfxFsr3UpscalerInitializationFlagBits::EnableHighDynamicRange => 0x1,
            FfxFsr3UpscalerInitializationFlagBits::EnableDisplayResolutionMotionVectors => 0x2,
            FfxFsr3UpscalerInitializationFlagBits::EnableMotionVectorsJitterCancellation => 0x4,
            FfxFsr3UpscalerInitializationFlagBits::EnableDepthInverted => 0x8,
            FfxFsr3UpscalerInitializationFlagBits::EnableDepthInfinite => 0x10,
            FfxFsr3UpscalerInitializationFlagBits::EnableAutoExposure => 0x20,
            FfxFsr3UpscalerInitializationFlagBits::EnableDynamicResolution => 0x40,
            FfxFsr3UpscalerInitializationFlagBits::EnableTexture1DUsage => 0x80,
            FfxFsr3UpscalerInitializationFlagBits::EnableDebugChecking => 0x100,
        }
    }
}

/// Dispatch flag bits.
#[derive(Clone, Copy, PartialEq, Eq, Structural, Debug)]
pub enum FfxFsr3UpscalerDispatchFlags {
    DrawDebugView,
}

impl FfxFsr3UpscalerDispatchFlags {
    /// The wire bit of this flag.
    pub open spec fn bit_spec(self) -> u32 {
        match self {
            FfxFsr3UpscalerDispatchFlags::DrawDebugView => 0x1,
        }
    }

    pub fn bit(self) -> (r: u32)
        ensures
            r == self.bit_spec(),
    {
        match self {
            FfxFsr3UpscalerDispatchFlags::DrawDebugView => 0x1,
        }
    }
}

// ---- Effect-library context description ----

/// The backend interface a context creation hands over. On the wire this is
/// a table of callback pointers plus a device reference; the logic here only
/// ever reads the device, so the model keeps just that handle.
#[derive(Clone, Copy, PartialEq, Eq, Structural, Debug)]
pub struct FfxInterface {
    pub device: u64,
}

/// Everything a context creation declares: flags, the largest render and
/// upscale extents the context will see, an optional message callback
/// (handle only), and the backend interface.
#[derive(Clone, Copy, PartialEq, Eq, Structural, Debug)]
pub struct FfxFsr3UpscalerContextDescription {
    pub flags: u32,
    pub max_render_size: FfxDimensions2D,
    pub max_upscale_size: FfxDimensions2D,
    pub fp_message: u64,
    pub backend_interface: FfxInterface,
}

} // verus!
