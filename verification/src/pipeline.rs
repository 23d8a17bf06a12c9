//! The GPU pipeline cache and the surface-format bridge it is built on.
//!
//! The cache is a process-wide, at-most-once-initialized bundle of native
//! pipeline objects. First successful initialization wins and persists for
//! the process; a failed initialization is cached as a terminal unavailable
//! state so later dispatches fail fast instead of repeating expensive shader
//! compiles. The format helpers decide which typed native format a shader
//! view of a resource may use — the part of view creation that is pure
//! arithmetic over wire codes.

use vstd::prelude::*;

verus! {

// ---- Native (DXGI) format codes ----
//
// Only the codes this library's mappings can produce or consume are named.

pub const DXGI_FORMAT_UNKNOWN: u32 = 0;
pub const DXGI_FORMAT_R32G32B32A32_TYPELESS: u32 = 1;
pub const DXGI_FORMAT_R32G32B32A32_FLOAT: u32 = 2;
pub const DXGI_FORMAT_R32G32B32A32_UINT: u32 = 3;
pub const DXGI_FORMAT_R32G32B32_FLOAT: u32 = 6;
pub const DXGI_FORMAT_R16G16B16A16_TYPELESS: u32 = 9;
pub const DXGI_FORMAT_R16G16B16A16_FLOAT: u32 = 10;
pub const DXGI_FORMAT_R32G32_TYPELESS: u32 = 15;
pub const DXGI_FORMAT_R32G32_FLOAT: u32 = 16;
pub const DXGI_FORMAT_R10G10B10A2_TYPELESS: u32 = 23;
pub const DXGI_FORMAT_R10G10B10A2_UNORM: u32 = 24;
pub const DXGI_FORMAT_R11G11B10_FLOAT: u32 = 26;
pub const DXGI_FORMAT_R8G8B8A8_TYPELESS: u32 = 27;
pub const DXGI_FORMAT_R8G8B8A8_UNORM: u32 = 28;
pub const DXGI_FORMAT_R8G8B8A8_UNORM_SRGB: u32 = 29;
pub const DXGI_FORMAT_R8G8B8A8_SNORM: u32 = 31;
pub const DXGI_FORMAT_R16G16_TYPELESS: u32 = 33;
pub const DXGI_FORMAT_R16G16_FLOAT: u32 = 34;
pub const DXGI_FORMAT_R16G16_UINT: u32 = 36;
pub const DXGI_FORMAT_R16G16_SINT: u32 = 38;
pub const DXGI_FORMAT_R32_TYPELESS: u32 = 39;
pub const DXGI_FORMAT_R32_FLOAT: u32 = 41;
pub const DXGI_FORMAT_R32_UINT: u32 = 42;
pub const DXGI_FORMAT_R8G8_TYPELESS: u32 = 48;
pub const DXGI_FORMAT_R8G8_UNORM: u32 = 49;
pub const DXGI_FORMAT_R8G8_UINT: u32 = 50;
pub const DXGI_FORMAT_R16_TYPELESS: u32 = 53;
pub const DXGI_FORMAT_R16_FLOAT: u32 = 54;
pub const DXGI_FORMAT_R16_UNORM: u32 = 56;
pub const DXGI_FORMAT_R16_UINT: u32 = 57;
pub const DXGI_FORMAT_R16_SNORM: u32 = 58;
pub const DXGI_FORMAT_R8_TYPELESS: u32 = 60;
pub const DXGI_FORMAT_R8_UNORM: u32 = 61;
pub const DXGI_FORMAT_R8_UINT: u32 = 62;
pub const DXGI_FORMAT_R9G9B9E5_SHAREDEXP: u32 = 67;
pub const DXGI_FORMAT_B8G8R8A8_UNORM: u32 = 87;
pub const DXGI_FORMAT_B8G8R8A8_TYPELESS: u32 = 90;
pub const DXGI_FORMAT_B8G8R8A8_UNORM_SRGB: u32 = 91;

// ---- Caller format to native format ----

/// The native format code a caller-declared surface format stands for; the
/// unknown code for anything outside the defined table.
pub open spec fn ffx_format_to_dxgi_spec(format: u32) -> u32 {
    if format == 1 {
        DXGI_FORMAT_R32G32B32A32_TYPELESS
    } else if format == 2 {
        DXGI_FORMAT_R32G32B32A32_UINT
    } else if format == 3 {
        DXGI_FORMAT_R32G32B32A32_FLOAT
    } else if format == 4 {
        DXGI_FORMAT_R16G16B16A16_FLOAT
    } else if format == 5 {
        DXGI_FORMAT_R32G32B32_FLOAT
    } else if format == 6 {
        DXGI_FORMAT_R32G32_FLOAT
    } else if format == 7 {
        DXGI_FORMAT_R8_UINT
    } else if format == 8 {
        DXGI_FORMAT_R32_UINT
    } else if format == 9 {
        DXGI_FORMAT_R8G8B8A8_TYPELESS
    } else if format == 10 {
        DXGI_FORMAT_R8G8B8A8_UNORM
    } else if format == 11 {
        DXGI_FORMAT_R8G8B8A8_SNORM
    } else if format == 12 {
        DXGI_FORMAT_R8G8B8A8_UNORM_SRGB
    } else if format == 13 {
        DXGI_FORMAT_B8G8R8A8_TYPELESS
    } else if format == 14 {
        DXGI_FORMAT_B8G8R8A8_UNORM
    } else if format == 15 {
        DXGI_FORMAT_B8G8R8A8_UNORM_SRGB
    } else if format == 16 {
        DXGI_FORMAT_R11G11B10_FLOAT
    } else if format == 17 {
        DXGI_FORMAT_R10G10B10A2_UNORM
    } else if format == 18 {
        DXGI_FORMAT_R16G16_FLOAT
    } else if format == 19 {
        DXGI_FORMAT_R16G16_UINT
    } else if format == 20 {
        DXGI_FORMAT_R16G16_SINT
    } else if format == 21 {
        DXGI_FORMAT_R16_FLOAT
    } else if format == 22 {
        DXGI_FORMAT_R16_UINT
    } else if format == 23 {
        DXGI_FORMAT_R16_UNORM
    } else if format == 24 {
        DXGI_FORMAT_R16_SNORM
    } else if format == 25 {
        DXGI_FORMAT_R8_UNORM
    } else if format == 26 {
        DXGI_FORMAT_R8G8_UNORM
    } else if format == 27 {
        DXGI_FORMAT_R8G8_UINT
    } else if format == 28 {
        DXGI_FORMAT_R32_FLOAT
    } else if format == 29 {
        DXGI_FORMAT_R9G9B9E5_SHAREDEXP
    } else if format == 30 {
        DXGI_FORMAT_R16G16B16A16_TYPELESS
    } else if format == 31 {
        DXGI_FORMAT_R32G32_TYPELESS
    } else if format == 32 {
        DXGI_FORMAT_R10G10B10A2_TYPELESS
    } else if format == 33 {
        DXGI_FORMAT_R16G16_TYPELESS
    } else if format == 34 {
        DXGI_FORMAT_R16_TYPELESS
    } else if format == 35 {
        DXGI_FORMAT_R8_TYPELESS
    } else if format == 36 {
        DXGI_FORMAT_R8G8_TYPELESS
    } else if format == 37 {
        DXGI_FORMAT_R32_TYPELESS
    } else {
        DXGI_FORMAT_UNKNOWN
    }
}

/// Map a caller-declared surface format code to the native format code.
pub fn ffx_format_to_dxgi(format: u32) -> (r: u32)
    ensures
        r == ffx_format_to_dxgi_spec(format),
{
    if format == 1 {
        DXGI_FORMAT_R32G32B32A32_TYPELESS
    } else if format == 2 {
        DXGI_FORMAT_R32G32B32A32_UINT
    } else if format == 3 {
        DXGI_FORMAT_R32G32B32A32_FLOAT
    } else if format == 4 {
        DXGI_FORMAT_R16G16B16A16_FLOAT
    } else if format == 5 {
        DXGI_FORMAT_R32G32B32_FLOAT
    } else if format == 6 {
        DXGI_FORMAT_R32G32_FLOAT
    } else if format == 7 {
        DXGI_FORMAT_R8_UINT
    } else if format == 8 {
        DXGI_FORMAT_R32_UINT
    } else if format == 9 {
        DXGI_FORMAT_R8G8B8A8_TYPELESS
    } else if format == 10 {
        DXGI_FORMAT_R8G8B8A8_UNORM
    } else if format == 11 {
        DXGI_FORMAT_R8G8B8A8_SNORM
    } else if format == 12 {
        DXGI_FORMAT_R8G8B8A8_UNORM_SRGB
    } else if format == 13 {
        DXGI_FORMAT_B8G8R8A8_TYPELESS
    } else if format == 14 {
        DXGI_FORMAT_B8G8R8A8_UNORM
    } else if format == 15 {
        DXGI_FORMAT_B8G8R8A8_UNORM_SRGB
    } else if format == 16 {
        DXGI_FORMAT_R11G11B10_FLOAT
    } else if format == 17 {
        DXGI_FORMAT_R10G10B10A2_UNORM
    } else if format == 18 {
        DXGI_FORMAT_R16G16_FLOAT
    } else if format == 19 {
        DXGI_FORMAT_R16G16_UINT
    } else if format == 20 {
        DXGI_FORMAT_R16G16_SINT
    } else if format == 21 {
        DXGI_FORMAT_R16_FLOAT
    } else if format == 22 {
        DXGI_FORMAT_R16_UINT
    } else if format == 23 {
        DXGI_FORMAT_R16_UNORM
    } else if format == 24 {
        DXGI_FORMAT_R16_SNORM
    } else if format == 25 {
        DXGI_FORMAT_R8_UNORM
    } else if format == 26 {
        DXGI_FORMAT_R8G8_UNORM
    } else if format == 27 {
        DXGI_FORMAT_R8G8_UINT
    } else if format == 28 {
        DXGI_FORMAT_R32_FLOAT
    } else if format == 29 {
        DXGI_FORMAT_R9G9B9E5_SHAREDEXP
    } else if format == 30 {
        DXGI_FORMAT_R16G16B16A16_TYPELESS
    } else if format == 31 {
        DXGI_FORMAT_R32G32_TYPELESS
    } else if format == 32 {
        DXGI_FORMAT_R10G10B10A2_TYPELESS
    } else if format == 33 {
        DXGI_FORMAT_R16G16_TYPELESS
    } else if format == 34 {
        DXGI_FORMAT_R16_TYPELESS
    } else if format == 35 {
        DXGI_FORMAT_R8_TYPELESS
    } else if format == 36 {
        DXGI_FORMAT_R8G8_TYPELESS
    } else if format == 37 {
        DXGI_FORMAT_R32_TYPELESS
    } else {
        DXGI_FORMAT_UNKNOWN
    }
}

// ---- Typeless to typed ----

/// The default typed interpretation of a typeless native format; a format
/// that is already typed maps to itself. The native API refuses typeless
/// formats on pipeline and view positions, and every typed pick here is
/// filterable.
pub open spec fn dxgi_typeless_to_typed_spec(format: u32) -> u32 {
    if format == DXGI_FORMAT_R8G8B8A8_TYPELESS {
        DXGI_FORMAT_R8G8B8A8_UNORM
    } else if format == DXGI_FORMAT_R10G10B10A2_TYPELESS {
        DXGI_FORMAT_R10G10B10A2_UNORM
    } else if format == DXGI_FORMAT_R16G16B16A16_TYPELESS {
        DXGI_FORMAT_R16G16B16A16_FLOAT
    } else if format == DXGI_FORMAT_R32G32B32A32_TYPELESS {
        DXGI_FORMAT_R32G32B32A32_FLOAT
    } else if format == DXGI_FORMAT_B8G8R8A8_TYPELESS {
        DXGI_FORMAT_B8G8R8A8_UNORM
    } else if format == DXGI_FORMAT_R32G32_TYPELESS {
        DXGI_FORMAT_R32G32_FLOAT
    } else if format == DXGI_FORMAT_R16G16_TYPELESS {
        DXGI_FORMAT_R16G16_FLOAT
    } else if format == DXGI_FORMAT_R32_TYPELESS {
        DXGI_FORMAT_R32_FLOAT
    } else if format == DXGI_FORMAT_R16_TYPELESS {
        DXGI_FORMAT_R16_FLOAT
    } else if format == DXGI_FORMAT_R8_TYPELESS {
        DXGI_FORMAT_R8_UNORM
    } else if format == DXGI_FORMAT_R8G8_TYPELESS {
        DXGI_FORMAT_R8G8_UNORM
    } else {
        format
    }
}

/// Convert a typeless native format to its default typed equivalent.
pub fn dxgi_typeless_to_typed(format: u32) -> (r: u32)
    ensures
        r == dxgi_typeless_to_typed_spec(format),
{
    if format == DXGI_FORMAT_R8G8B8A8_TYPELESS {
        DXGI_FORMAT_R8G8B8A8_UNORM
    } else if format == DXGI_FORMAT_R10G10B10A2_TYPELESS {
        DXGI_FORMAT_R10G10B10A2_UNORM
    } else if format == DXGI_FORMAT_R16G16B16A16_TYPELESS {
        DXGI_FORMAT_R16G16B16A16_FLOAT
    } else if format == DXGI_FORMAT_R32G32B32A32_TYPELESS {
        DXGI_FORMAT_R32G32B32A32_FLOAT
    } else if format == DXGI_FORMAT_B8G8R8A8_TYPELESS {
        DXGI_FORMAT_B8G8R8A8_UNORM
    } else if format == DXGI_FORMAT_R32G32_TYPELESS {
        DXGI_FORMAT_R32G32_FLOAT
    } else if format == DXGI_FORMAT_R16G16_TYPELESS {
        DXGI_FORMAT_R16G16_FLOAT
    } else if format == DXGI_FORMAT_R32_TYPELESS {
        DXGI_FORMAT_R32_FLOAT
    } else if format == DXGI_FORMAT_R16_TYPELESS {
        DXGI_FORMAT_R16_FLOAT
    } else if format == DXGI_FORMAT_R8_TYPELESS {
        DXGI_FORMAT_R8_UNORM
    } else if format == DXGI_FORMAT_R8G8_TYPELESS {
        DXGI_FORMAT_R8G8_UNORM
    } else {
        format
    }
}

// ---- Filterability ----

/// Integer-typed native formats cannot be sampled with a filtering sampler;
/// binding one to the resample pipeline is a driver-stability hazard, not a
/// visual artifact.
pub open spec fn is_integer_format_spec(format: u32) -> bool {
    if format == DXGI_FORMAT_R32G32B32A32_UINT {
        true
    } else if format == DXGI_FORMAT_R16G16_UINT {
        true
    } else if format == DXGI_FORMAT_R16G16_SINT {
        true
    } else if format == DXGI_FORMAT_R32_UINT {
        true
    } else if format == DXGI_FORMAT_R8G8_UINT {
        true
    } else if format == DXGI_FORMAT_R16_UINT {
        true
    } else if format == DXGI_FORMAT_R8_UINT {
        true
    } else {
        false
    }
}

/// Whether a typed native format is integer-typed (and so non-filterable).
pub fn is_integer_format(format: u32) -> (r: bool)
    ensures
        r == is_integer_format_spec(format),
{
    if format == DXGI_FORMAT_R32G32B32A32_UINT {
        true
    } else if format == DXGI_FORMAT_R16G16_UINT {
        true
    } else if format == DXGI_FORMAT_R16G16_SINT {
        true
    } else if format == DXGI_FORMAT_R32_UINT {
        true
    } else if format == DXGI_FORMAT_R8G8_UINT {
        true
    } else if format == DXGI_FORMAT_R16_UINT {
        true
    } else if format == DXGI_FORMAT_R8_UINT {
        true
    } else {
        false
    }
}

// ---- Shader-view format selection ----

/// The typed, filterable native format a shader view of a resource must use,
/// or nothing when no safe view exists.
///
/// The resource's own reported native format is preferred over the
/// caller-declared abstract format — the native format is always consistent
/// with how the resource was created, while the declared one can be stale or
/// absent. A typeless native format permits cross-format views, so it is
/// resolved to its filterable typed default. A fully typed native format
/// must be used exactly as it is, and is refused when it is integer-typed.
pub open spec fn typed_view_format_spec(native_format: u32, declared_format: u32) -> Option<u32> {
    let base = if native_format != DXGI_FORMAT_UNKNOWN {
        native_format
    } else {
        ffx_format_to_dxgi_spec(declared_format)
    };
    let typed = dxgi_typeless_to_typed_spec(base);
    if typed == DXGI_FORMAT_UNKNOWN {
        None
    } else if typed != base {
        Some(typed)
    } else if is_integer_format_spec(typed) {
        None
    } else {
        Some(typed)
    }
}

/// Select the typed view format for a resource, from its reported native
/// format and the caller-declared abstract format.
pub fn typed_view_format(native_format: u32, declared_format: u32) -> (r: Option<u32>)
    ensures
        r == typed_view_format_spec(native_format, declared_format),
{
    let base: u32 = if native_format != DXGI_FORMAT_UNKNOWN {
        native_format
    } else {
        ffx_format_to_dxgi(declared_format)
    };
    let typed: u32 = dxgi_typeless_to_typed(base);
    if typed == DXGI_FORMAT_UNKNOWN {
        None
    } else if typed != base {
        Some(typed)
    } else if is_integer_format(typed) {
        None
    } else {
        Some(typed)
    }
}

// ---- The pipeline cache ----

/// The handles a successful initialization yields: the native device the
/// pipeline objects were built on and the typed render-target format they
/// are bound to. The pipeline objects themselves (root signature, pipeline
/// states, descriptor heaps) live in the boundary layer, owned for the
/// process lifetime and never released.
#[derive(Clone, Copy, PartialEq, Eq, Structural, Debug)]
pub struct PipelineBundle {
    pub device: u64,
    pub rt_format: u32,
}

/// The tri-state cache: never initialized, ready forever, or failed forever.
#[derive(Clone, Copy, PartialEq, Eq, Structural, Debug)]
pub enum PipelineCache {
    Uninit,
    Ready(PipelineBundle),
    Unavailable,
}

impl PipelineCache {
    /// The state the cache settles into when a fresh initialization outcome
    /// is offered: only the never-initialized state consumes the offer; a
    /// settled cache — ready or failed — is permanent.
    pub open spec fn resolved_spec(self, fresh: Option<PipelineBundle>) -> PipelineCache {
        match self {
            PipelineCache::Uninit => match fresh {
                Some(b) => PipelineCache::Ready(b),
                None => PipelineCache::Unavailable,
            },
            settled => settled,
        }
    }

    /// Whether a dispatch would have to run an initialization attempt before
    /// the cache can answer.
    pub fn needs_init(&self) -> (r: bool)
        ensures
            r == (*self is Uninit),
    {
        match self {
            PipelineCache::Uninit => true,
            _ => false,
        }
    }

    /// Resolve the cache against a fresh initialization outcome (consulted
    /// only on the very first call) and hand back the bundle when one is
    /// cached: first initialization wins, success and failure alike.
    pub fn get_or_init(&mut self, fresh: Option<PipelineBundle>) -> (r: Option<PipelineBundle>)
        ensures
            *final(self) == old(self).resolved_spec(fresh),
            r == (match *final(self) {
                PipelineCache::Ready(b) => Some(b),
                _ => None,
            }),
    {
        match self {
            PipelineCache::Uninit => {
                match fresh {
                    Some(b) => {
                        *self = PipelineCache::Ready(b);
                        Some(b)
                    },
                    None => {
                        *self = PipelineCache::Unavailable;
                        None
                    },
                }
            },
            PipelineCache::Ready(b) => Some(*b),
            PipelineCache::Unavailable => None,
        }
    }
}

} // verus!
