//! Boundary protocol: status codes, descriptor type tags, and the
//! polymorphic descriptor-header chain.
//!
//! Every entry point returns one of the status codes below. Callers hand
//! parameters over as a chain of tagged descriptor nodes; [`find_desc`] is
//! the one mechanism by which a required parameter block is located inside
//! such a chain. A null chain head on the wire becomes an empty vector here,
//! and a null optional pointer becomes `None`.

use vstd::prelude::*;

verus! {

// ---- Status codes ----

pub const FFX_API_RETURN_OK: u32 = 0;
pub const FFX_API_RETURN_ERROR: u32 = 1;
pub const FFX_API_RETURN_ERROR_UNKNOWN_DESCTYPE: u32 = 2;
pub const FFX_API_RETURN_ERROR_RUNTIME_ERROR: u32 = 3;
pub const FFX_API_RETURN_NO_PROVIDER: u32 = 4;
pub const FFX_API_RETURN_ERROR_MEMORY: u32 = 5;
pub const FFX_API_RETURN_ERROR_PARAMETER: u32 = 6;

// ---- Descriptor type tags ----
//
// Effect-specific tags carry the upscale effect identifier in bits 16..24;
// the two low tags are general (backend selection, global debug).

pub const FFX_API_CONFIGURE_DESC_TYPE_GLOBALDEBUG1: u64 = 0x0000_0001;
pub const FFX_API_CREATE_CONTEXT_DESC_TYPE_BACKEND_DX12: u64 = 0x0000_0002;
pub const FFX_API_CREATE_CONTEXT_DESC_TYPE_UPSCALE: u64 = 0x0001_0000;
pub const FFX_API_DISPATCH_DESC_TYPE_UPSCALE: u64 = 0x0001_0001;
pub const FFX_API_QUERY_DESC_TYPE_UPSCALE_GETUPSCALERATIOFROMQUALITYMODE: u64 = 0x0001_0002;
pub const FFX_API_QUERY_DESC_TYPE_UPSCALE_GETRENDERRESOLUTIONFROMQUALITYMODE: u64 = 0x0001_0003;
pub const FFX_API_QUERY_DESC_TYPE_UPSCALE_GETJITTERPHASECOUNT: u64 = 0x0001_0004;
pub const FFX_API_QUERY_DESC_TYPE_UPSCALE_GETJITTEROFFSET: u64 = 0x0001_0005;
pub const FFX_API_DISPATCH_DESC_TYPE_UPSCALE_GENERATEREACTIVEMASK: u64 = 0x0001_0006;
pub const FFX_API_CONFIGURE_DESC_TYPE_UPSCALE_KEYVALUE: u64 = 0x0001_0007;

// ---- Polymorphic descriptor header ----

/// The common prefix of every descriptor node: its type tag. On the wire the
/// header also carries the pointer to the next node; here a chain is a vector
/// in traversal order, so the link is structural.
#[derive(Clone, Copy, PartialEq, Eq, Structural, Debug)]
pub struct ffxApiHeader {
    pub type_: u64,
}

/// A descriptor node exposes its type tag through this common view; the chain
/// walker needs nothing else of a node.
pub trait Tagged {
    spec fn tag_spec(&self) -> u64;

    fn tag(&self) -> (t: u64)
        ensures
            t == self.tag_spec(),
    ;
}

impl Tagged for ffxApiHeader {
    open spec fn tag_spec(&self) -> u64 {
        self.type_
    }

    fn tag(&self) -> u64 {
        self.type_
    }
}

/// Walk the descriptor chain and find the first node with the given type tag.
///
/// Returns the index of the first match, or `None` when the chain holds no
/// node with that tag — in particular immediately on an empty chain (the
/// image of a null chain head). No side effects.
pub fn find_desc<T: Tagged>(chain: &Vec<T>, type_: u64) -> (r: Option<usize>)
    ensures
        match r {
            Some(i) => {
                &&& i < chain@.len()
                &&& chain@[i as int].tag_spec() == type_
                &&& forall|j: int| 0 <= j < i ==> chain@[j].tag_spec() != type_
            },
            None => forall|j: int| 0 <= j < chain@.len() ==> chain@[j].tag_spec() != type_,
        },
{
    let mut i: usize = 0;
    while i < chain.len()
        invariant
            i <= chain@.len(),
            forall|j: int| 0 <= j < i ==> chain@[j].tag_spec() != type_,
        decreases chain@.len() - i,
    {
        if chain[i].tag() == type_ {
            return Some(i);
        }
        i = i + 1;
    }
    None
}

} // verus!
