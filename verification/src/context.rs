//! The context store: per-context state behind opaque handles.
//!
//! A context is an immutable snapshot taken at creation and freed exactly
//! once. The store is an arena of slots; a handle is the slot index plus one,
//! so zero stays the null handle, and a destroyed slot is left empty rather
//! than reused — a second destroy of the same handle is then detected
//! deterministically instead of touching freed memory.

use crate::api::{
    find_desc, Tagged, FFX_API_CREATE_CONTEXT_DESC_TYPE_BACKEND_DX12,
    FFX_API_CREATE_CONTEXT_DESC_TYPE_UPSCALE, FFX_API_RETURN_ERROR_PARAMETER,
    FFX_API_RETURN_ERROR_UNKNOWN_DESCTYPE, FFX_API_RETURN_OK,
};
use crate::desc::{ffxCreateContextDescUpscale, CreateDesc};
use crate::types::FfxApiDimensions2D;
use vstd::prelude::*;
use vstd::pervasive::VecAdditionalExecFns;

verus! {

/// The state a context holds for its lifetime: the extents and flags its
/// creation declared and the borrowed backend device handle (zero when no
/// backend descriptor was supplied; never released by this library).
#[derive(Clone, Copy, PartialEq, Eq, Structural, Debug)]
pub struct OxrContext {
    pub max_render_size: FfxApiDimensions2D,
    pub max_upscale_size: FfxApiDimensions2D,
    pub flags: u32,
    pub device: u64,
}

/// The arena owning every live context.
pub struct ContextStore {
    slots: Vec<Option<OxrContext>>,
}

impl View for ContextStore {
    type V = Seq<Option<OxrContext>>;

    closed spec fn view(&self) -> Seq<Option<OxrContext>> {
        self.slots@
    }
}

// ---- Chain interpretation ----

/// The payload the upscale-creation search yields: the first node tagged as
/// an upscale-creation descriptor, provided it really carries that payload.
/// A node whose tag claims upscale creation but whose body is something else
/// hides the payload — on the wire such a node would be reinterpreted as
/// garbage, so the model refuses it.
pub open spec fn upscale_create_payload(chain: Seq<CreateDesc>) -> Option<
    ffxCreateContextDescUpscale,
>
    decreases chain.len(),
{
    if chain.len() == 0 {
        None
    } else if chain[0].tag_spec() == FFX_API_CREATE_CONTEXT_DESC_TYPE_UPSCALE {
        match chain[0] {
            CreateDesc::Upscale(u) => Some(u),
            _ => None,
        }
    } else {
        upscale_create_payload(chain.drop_first())
    }
}

/// The backend device the chain supplies: taken from the first node tagged
/// as a backend descriptor, or the null handle when the chain names none.
/// Absence of a backend descriptor is not an error.
pub open spec fn backend_device_of(chain: Seq<CreateDesc>) -> u64
    decreases chain.len(),
{
    if chain.len() == 0 {
        0
    } else if chain[0].tag_spec() == FFX_API_CREATE_CONTEXT_DESC_TYPE_BACKEND_DX12 {
        match chain[0] {
            CreateDesc::BackendDx12(b) => b.device,
            _ => 0,
        }
    } else {
        backend_device_of(chain.drop_first())
    }
}

/// Skipping a tag-free prefix does not change what the upscale search yields.
proof fn lemma_upscale_payload_skip(chain: Seq<CreateDesc>, i: int)
    requires
        0 <= i <= chain.len(),
        forall|j: int|
            0 <= j < i ==> chain[j].tag_spec() != FFX_API_CREATE_CONTEXT_DESC_TYPE_UPSCALE,
    ensures
        upscale_create_payload(chain) == upscale_create_payload(chain.skip(i)),
    decreases i,
{
    if i > 0 {
        lemma_upscale_payload_skip(chain, i - 1);
        let tail = chain.skip(i - 1);
        assert(tail[0] == chain[i - 1]);
        assert(chain[i - 1].tag_spec() != FFX_API_CREATE_CONTEXT_DESC_TYPE_UPSCALE);
        assert(upscale_create_payload(tail) == upscale_create_payload(tail.drop_first()));
        assert(tail.drop_first() =~= chain.skip(i));
    } else {
        assert(chain.skip(0) =~= chain);
    }
}

/// Skipping a tag-free prefix does not change which device the chain yields.
proof fn lemma_backend_device_skip(chain: Seq<CreateDesc>, i: int)
    requires
        0 <= i <= chain.len(),
        forall|j: int|
            0 <= j < i ==> chain[j].tag_spec() != FFX_API_CREATE_CONTEXT_DESC_TYPE_BACKEND_DX12,
    ensures
        backend_device_of(chain) == backend_device_of(chain.skip(i)),
    decreases i,
{
    if i > 0 {
        lemma_backend_device_skip(chain, i - 1);
        let tail = chain.skip(i - 1);
        assert(tail[0] == chain[i - 1]);
        assert(chain[i - 1].tag_spec() != FFX_API_CREATE_CONTEXT_DESC_TYPE_BACKEND_DX12);
        assert(backend_device_of(tail) == backend_device_of(tail.drop_first()));
        assert(tail.drop_first() =~= chain.skip(i));
    } else {
        assert(chain.skip(0) =~= chain);
    }
}

impl ContextStore {
    /// An empty arena: no context was ever created.
    pub fn new() -> (r: ContextStore)
        ensures
            r@.len() == 0,
    {
        ContextStore { slots: Vec::new() }
    }

    /// A handle that currently names a live context.
    pub open spec fn handle_live(&self, h: u64) -> bool {
        1 <= h <= self@.len() && self@[h - 1] is Some
    }

    /// The context behind a live handle.
    pub open spec fn context_spec(&self, h: u64) -> OxrContext
        recommends
            self.handle_live(h),
    {
        self@[h - 1]->Some_0
    }

    /// Read the context a handle names, or nothing for a dead or null
    /// handle.
    pub fn lookup(&self, h: u64) -> (r: Option<OxrContext>)
        ensures
            self.handle_live(h) ==> r == Some(self.context_spec(h)),
            !self.handle_live(h) ==> r is None,
    {
        if h == 0 || h > self.slots.len() as u64 {
            return None;
        }
        let idx: usize = (h - 1) as usize;
        self.slots[idx]
    }
}

/// Create a context from a creation descriptor chain.
///
/// Fails with the parameter error when the chain is absent (a null pointer
/// on the wire; the boundary layer also refuses a null out-handle pointer
/// before calling in). Fails with the unknown-descriptor-type error when the
/// chain holds no upscale-creation payload. Otherwise allocates a fresh
/// context — extents and flags from the upscale payload, device from the
/// optional backend descriptor — and writes its handle through `out_handle`.
pub fn create_context(
    store: &mut ContextStore,
    out_handle: &mut u64,
    desc: Option<&Vec<CreateDesc>>,
) -> (status: u32)
    ensures
        match desc {
            None => {
                &&& status == FFX_API_RETURN_ERROR_PARAMETER
                &&& final(store)@ == old(store)@
                &&& *final(out_handle) == *old(out_handle)
            },
            Some(chain) => match upscale_create_payload(chain@) {
                None => {
                    &&& status == FFX_API_RETURN_ERROR_UNKNOWN_DESCTYPE
                    &&& final(store)@ == old(store)@
                    &&& *final(out_handle) == *old(out_handle)
                },
                Some(u) => {
                    &&& status == FFX_API_RETURN_OK
                    &&& final(store)@ == old(store)@.push(
                        Some(
                            OxrContext {
                                max_render_size: u.max_render_size,
                                max_upscale_size: u.max_upscale_size,
                                flags: u.flags,
                                device: backend_device_of(chain@),
                            },
                        ),
                    )
                    &&& *final(out_handle) == old(store)@.len() + 1
                    &&& final(store).handle_live(*final(out_handle))
                },
            },
        },
{
    let chain = match desc {
        None => {
            return FFX_API_RETURN_ERROR_PARAMETER;
        },
        Some(chain) => chain,
    };
    let upscale = match find_desc(chain, FFX_API_CREATE_CONTEXT_DESC_TYPE_UPSCALE) {
        None => {
            proof {
                lemma_upscale_payload_skip(chain@, chain@.len() as int);
                assert(chain@.skip(chain@.len() as int) =~= Seq::<CreateDesc>::empty());
            }
            return FFX_API_RETURN_ERROR_UNKNOWN_DESCTYPE;
        },
        Some(i) => {
            proof {
                lemma_upscale_payload_skip(chain@, i as int);
                assert(chain@.skip(i as int)[0] == chain@[i as int]);
            }
            match chain[i] {
                CreateDesc::Upscale(u) => u,
                _ => {
                    return FFX_API_RETURN_ERROR_UNKNOWN_DESCTYPE;
                },
            }
        },
    };
    let device: u64 = match find_desc(chain, FFX_API_CREATE_CONTEXT_DESC_TYPE_BACKEND_DX12) {
        None => {
            proof {
                lemma_backend_device_skip(chain@, chain@.len() as int);
                assert(chain@.skip(chain@.len() as int) =~= Seq::<CreateDesc>::empty());
            }
            0
        },
        Some(i) => {
            proof {
                lemma_backend_device_skip(chain@, i as int);
                assert(chain@.skip(i as int)[0] == chain@[i as int]);
            }
            match chain[i] {
                CreateDesc::BackendDx12(b) => b.device,
                _ => 0,
            }
        },
    };
    let ctx = OxrContext {
        max_render_size: upscale.max_render_size,
        max_upscale_size: upscale.max_upscale_size,
        flags: upscale.flags,
        device,
    };
    store.slots.push(Some(ctx));
    *out_handle = store.slots.len() as u64;
    FFX_API_RETURN_OK
}

/// Destroy the context a handle names and null the handle.
///
/// Fails with the parameter error — touching nothing — when the handle is
/// already null or does not name a live context (in particular after a
/// previous destroy of the same handle). Otherwise the slot is freed and the
/// caller's handle is set to null so an accidental second destroy is seen as
/// "already null".
pub fn destroy_context(store: &mut ContextStore, handle: &mut u64) -> (status: u32)
    ensures
        !old(store).handle_live(*old(handle)) ==> {
            &&& status == FFX_API_RETURN_ERROR_PARAMETER
            &&& final(store)@ == old(store)@
            &&& *final(handle) == *old(handle)
        },
        old(store).handle_live(*old(handle)) ==> {
            &&& status == FFX_API_RETURN_OK
            &&& final(store)@ == old(store)@.update(*old(handle) - 1, None)
            &&& *final(handle) == 0
        },
{
    let h: u64 = *handle;
    if h == 0 || h > store.slots.len() as u64 {
        return FFX_API_RETURN_ERROR_PARAMETER;
    }
    let idx: usize = (h - 1) as usize;
    if store.slots[idx].is_none() {
        return FFX_API_RETURN_ERROR_PARAMETER;
    }
    store.slots.set(idx, None);
    *handle = 0;
    FFX_API_RETURN_OK
}

} // verus!
