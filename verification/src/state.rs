//! Resource-state translator: the bidirectional bridge between the abstract,
//! caller-visible resource-state bitmask and the native graphics API's
//! state values, and transition-barrier construction.
//!
//! The abstract protocol encodes a resource's access state as an OR of
//! independent bit flags. Translation ORs together the native equivalent of
//! every set bit. The native common/default state is the zero value, so a
//! mask whose only set bit is the common bit translates to exactly that
//! default. The native present state is given a distinct bit of its own in
//! this model so that "present" and "nothing set" stay distinguishable; the
//! boundary layer folds it into the native default when it emits real
//! barriers, which treats present as an alias of the common state.

use vstd::prelude::*;

verus! {

// ---- Abstract resource-state bits (caller-visible wire values) ----

pub const FFX_API_RESOURCE_STATE_COMMON: u32 = 0x1;
pub const FFX_API_RESOURCE_STATE_UNORDERED_ACCESS: u32 = 0x2;
pub const FFX_API_RESOURCE_STATE_COMPUTE_READ: u32 = 0x4;
pub const FFX_API_RESOURCE_STATE_PIXEL_READ: u32 = 0x8;
pub const FFX_API_RESOURCE_STATE_COPY_SRC: u32 = 0x10;
pub const FFX_API_RESOURCE_STATE_COPY_DEST: u32 = 0x20;
pub const FFX_API_RESOURCE_STATE_INDIRECT_ARGUMENT: u32 = 0x40;
pub const FFX_API_RESOURCE_STATE_PRESENT: u32 = 0x80;
pub const FFX_API_RESOURCE_STATE_RENDER_TARGET: u32 = 0x100;
pub const FFX_API_RESOURCE_STATE_DEPTH_ATTACHMENT: u32 = 0x200;

/// Pre-OR'd convenience state: readable from both pixel and compute shaders.
pub const FFX_API_RESOURCE_STATE_PIXEL_COMPUTE_READ: u32 = FFX_API_RESOURCE_STATE_PIXEL_READ
    | FFX_API_RESOURCE_STATE_COMPUTE_READ;

/// Pre-OR'd convenience state: generically readable (copy source or compute).
pub const FFX_API_RESOURCE_STATE_GENERIC_READ: u32 = FFX_API_RESOURCE_STATE_COPY_SRC
    | FFX_API_RESOURCE_STATE_COMPUTE_READ;

// ---- Native resource-state values ----
//
// These follow the native graphics API's transition-state encoding; the
// common/default state is zero, and present carries its own bit here (see
// the module note above).

pub const NATIVE_STATE_COMMON: u32 = 0x0;
pub const NATIVE_STATE_RENDER_TARGET: u32 = 0x4;
pub const NATIVE_STATE_UNORDERED_ACCESS: u32 = 0x8;
pub const NATIVE_STATE_DEPTH_WRITE: u32 = 0x10;
pub const NATIVE_STATE_NON_PIXEL_SHADER_RESOURCE: u32 = 0x40;
pub const NATIVE_STATE_PIXEL_SHADER_RESOURCE: u32 = 0x80;
pub const NATIVE_STATE_INDIRECT_ARGUMENT: u32 = 0x200;
pub const NATIVE_STATE_COPY_DEST: u32 = 0x400;
pub const NATIVE_STATE_COPY_SOURCE: u32 = 0x800;
pub const NATIVE_STATE_PRESENT: u32 = 0x1000;

// ---- Translation ----

/// The native state equivalent to an abstract state bitmask: the OR of the
/// native value of every set flag. A mask of only the common bit yields the
/// native default state, which is the zero value.
pub open spec fn translate_state_spec(state: u32) -> u32 {
    (if state & FFX_API_RESOURCE_STATE_UNORDERED_ACCESS != 0 {
        NATIVE_STATE_UNORDERED_ACCESS
    } else {
        0
    }) | (if state & FFX_API_RESOURCE_STATE_COMPUTE_READ != 0 {
        NATIVE_STATE_NON_PIXEL_SHADER_RESOURCE
    } else {
        0
    }) | (if state & FFX_API_RESOURCE_STATE_PIXEL_READ != 0 {
        NATIVE_STATE_PIXEL_SHADER_RESOURCE
    } else {
        0
    }) | (if state & FFX_API_RESOURCE_STATE_COPY_SRC != 0 {
        NATIVE_STATE_COPY_SOURCE
    } else {
        0
    }) | (if state & FFX_API_RESOURCE_STATE_COPY_DEST != 0 {
        NATIVE_STATE_COPY_DEST
    } else {
        0
    }) | (if state & FFX_API_RESOURCE_STATE_INDIRECT_ARGUMENT != 0 {
        NATIVE_STATE_INDIRECT_ARGUMENT
    } else {
        0
    }) | (if state & FFX_API_RESOURCE_STATE_PRESENT != 0 {
        NATIVE_STATE_PRESENT
    } else {
        0
    }) | (if state & FFX_API_RESOURCE_STATE_RENDER_TARGET != 0 {
        NATIVE_STATE_RENDER_TARGET
    } else {
        0
    }) | (if state & FFX_API_RESOURCE_STATE_DEPTH_ATTACHMENT != 0 {
        NATIVE_STATE_DEPTH_WRITE
    } else {
        0
    })
}

/// Translate an abstract resource-state bitmask to the native state value.
pub fn translate_state(state: u32) -> (r: u32)
    ensures
        r == translate_state_spec(state),
{
    (if state & FFX_API_RESOURCE_STATE_UNORDERED_ACCESS != 0 {
        NATIVE_STATE_UNORDERED_ACCESS
    } else {
        0
    }) | (if state & FFX_API_RESOURCE_STATE_COMPUTE_READ != 0 {
        NATIVE_STATE_NON_PIXEL_SHADER_RESOURCE
    } else {
        0
    }) | (if state & FFX_API_RESOURCE_STATE_PIXEL_READ != 0 {
        NATIVE_STATE_PIXEL_SHADER_RESOURCE
    } else {
        0
    }) | (if state & FFX_API_RESOURCE_STATE_COPY_SRC != 0 {
        NATIVE_STATE_COPY_SOURCE
    } else {
        0
    }) | (if state & FFX_API_RESOURCE_STATE_COPY_DEST != 0 {
        NATIVE_STATE_COPY_DEST
    } else {
        0
    }) | (if state & FFX_API_RESOURCE_STATE_INDIRECT_ARGUMENT != 0 {
        NATIVE_STATE_INDIRECT_ARGUMENT
    } else {
        0
    }) | (if state & FFX_API_RESOURCE_STATE_PRESENT != 0 {
        NATIVE_STATE_PRESENT
    } else {
        0
    }) | (if state & FFX_API_RESOURCE_STATE_RENDER_TARGET != 0 {
        NATIVE_STATE_RENDER_TARGET
    } else {
        0
    }) | (if state & FFX_API_RESOURCE_STATE_DEPTH_ATTACHMENT != 0 {
        NATIVE_STATE_DEPTH_WRITE
    } else {
        0
    })
}

/// Translating each single defined flag gives a nonzero native value, except
/// the common flag, whose translation is exactly the native default state.
pub proof fn lemma_translate_single_bits()
    ensures
        translate_state_spec(FFX_API_RESOURCE_STATE_COMMON) == NATIVE_STATE_COMMON,
        translate_state_spec(FFX_API_RESOURCE_STATE_UNORDERED_ACCESS)
            == NATIVE_STATE_UNORDERED_ACCESS,
        translate_state_spec(FFX_API_RESOURCE_STATE_COMPUTE_READ)
            == NATIVE_STATE_NON_PIXEL_SHADER_RESOURCE,
        translate_state_spec(FFX_API_RESOURCE_STATE_PIXEL_READ)
            == NATIVE_STATE_PIXEL_SHADER_RESOURCE,
        translate_state_spec(FFX_API_RESOURCE_STATE_COPY_SRC) == NATIVE_STATE_COPY_SOURCE,
        translate_state_spec(FFX_API_RESOURCE_STATE_COPY_DEST) == NATIVE_STATE_COPY_DEST,
        translate_state_spec(FFX_API_RESOURCE_STATE_INDIRECT_ARGUMENT)
            == NATIVE_STATE_INDIRECT_ARGUMENT,
        translate_state_spec(FFX_API_RESOURCE_STATE_PRESENT) == NATIVE_STATE_PRESENT,
        translate_state_spec(FFX_API_RESOURCE_STATE_RENDER_TARGET) == NATIVE_STATE_RENDER_TARGET,
        translate_state_spec(FFX_API_RESOURCE_STATE_DEPTH_ATTACHMENT) == NATIVE_STATE_DEPTH_WRITE,
        translate_state_spec(FFX_API_RESOURCE_STATE_UNORDERED_ACCESS) != 0,
        translate_state_spec(FFX_API_RESOURCE_STATE_COMPUTE_READ) != 0,
        translate_state_spec(FFX_API_RESOURCE_STATE_PIXEL_READ) != 0,
        translate_state_spec(FFX_API_RESOURCE_STATE_COPY_SRC) != 0,
        translate_state_spec(FFX_API_RESOURCE_STATE_COPY_DEST) != 0,
        translate_state_spec(FFX_API_RESOURCE_STATE_INDIRECT_ARGUMENT) != 0,
        translate_state_spec(FFX_API_RESOURCE_STATE_PRESENT) != 0,
        translate_state_spec(FFX_API_RESOURCE_STATE_RENDER_TARGET) != 0,
        translate_state_spec(FFX_API_RESOURCE_STATE_DEPTH_ATTACHMENT) != 0,
{
    assert(translate_state_spec(0x1u32) == 0x0u32) by (bit_vector);
    assert(translate_state_spec(0x2u32) == 0x8u32) by (bit_vector);
    assert(translate_state_spec(0x4u32) == 0x40u32) by (bit_vector);
    assert(translate_state_spec(0x8u32) == 0x80u32) by (bit_vector);
    assert(translate_state_spec(0x10u32) == 0x800u32) by (bit_vector);
    assert(translate_state_spec(0x20u32) == 0x400u32) by (bit_vector);
    assert(translate_state_spec(0x40u32) == 0x200u32) by (bit_vector);
    assert(translate_state_spec(0x80u32) == 0x1000u32) by (bit_vector);
    assert(translate_state_spec(0x100u32) == 0x4u32) by (bit_vector);
    assert(translate_state_spec(0x200u32) == 0x10u32) by (bit_vector);
}

/// Translation distributes over OR: the native state of a combined mask is
/// the OR of the native states of its parts. In particular the pre-OR'd
/// convenience states translate to the OR of their components.
pub proof fn lemma_translate_or(a: u32, b: u32)
    ensures
        translate_state_spec(a | b) == translate_state_spec(a) | translate_state_spec(b),
{
    assert(translate_state_spec(a | b) == translate_state_spec(a) | translate_state_spec(b))
        by (bit_vector);
}

// ---- Transition barriers ----

/// A transition barrier over the full resource: every subresource moves from
/// `state_before` to `state_after`. Both states are native state values.
#[derive(Clone, Copy, PartialEq, Eq, Structural, Debug)]
pub struct BarrierDesc {
    /// Borrowed native resource handle; never zero in an emitted barrier.
    pub resource: u64,
    pub state_before: u32,
    pub state_after: u32,
}

/// The barrier a transition needs: none when the two states are already
/// equal (a redundant barrier stalls some drivers), otherwise exactly one
/// full-resource transition barrier.
pub open spec fn transition_spec(resource: u64, state_before: u32, state_after: u32) -> Option<
    BarrierDesc,
> {
    if state_before == state_after {
        None
    } else {
        Some(BarrierDesc { resource, state_before, state_after })
    }
}

/// Build the transition barrier between two native states, eliding the
/// no-op case.
pub fn transition(resource: u64, state_before: u32, state_after: u32) -> (r: Option<BarrierDesc>)
    ensures
        r == transition_spec(resource, state_before, state_after),
        state_before == state_after <==> r is None,
{
    if state_before == state_after {
        None
    } else {
        Some(BarrierDesc { resource, state_before, state_after })
    }
}

/// The barrier that moves a resource from its caller-declared abstract state
/// into a native working state, elided when the resource is already there.
pub open spec fn transition_in_spec(resource: u64, declared_state: u32, working: u32) -> Option<
    BarrierDesc,
> {
    transition_spec(resource, translate_state_spec(declared_state), working)
}

/// The barrier that restores a resource from a native working state back to
/// its caller-declared abstract state, elided when nothing moved.
pub open spec fn transition_out_spec(resource: u64, working: u32, declared_state: u32) -> Option<
    BarrierDesc,
> {
    transition_spec(resource, working, translate_state_spec(declared_state))
}

/// Build the transition from a declared abstract state into a native working
/// state.
pub fn transition_in(resource: u64, declared_state: u32, working: u32) -> (r: Option<BarrierDesc>)
    ensures
        r == transition_in_spec(resource, declared_state, working),
{
    let before: u32 = translate_state(declared_state);
    transition(resource, before, working)
}

/// Build the transition that restores a declared abstract state.
pub fn transition_out(resource: u64, working: u32, declared_state: u32) -> (r: Option<BarrierDesc>)
    ensures
        r == transition_out_spec(resource, working, declared_state),
{
    let after: u32 = translate_state(declared_state);
    transition(resource, working, after)
}

/// The sequence a barrier option contributes to a coalesced batch: nothing,
/// or the one barrier.
pub open spec fn barrier_seq(b: Option<BarrierDesc>) -> Seq<BarrierDesc> {
    match b {
        None => Seq::empty(),
        Some(barrier) => seq![barrier],
    }
}

/// Append a barrier to a batch under construction unless it was elided.
pub fn push_barrier(batch: &mut Vec<BarrierDesc>, b: Option<BarrierDesc>)
    ensures
        final(batch)@ == old(batch)@ + barrier_seq(b),
{
    match b {
        None => {
            proof {
                assert(batch@ + barrier_seq(b) =~= batch@);
            }
        },
        Some(barrier) => {
            batch.push(barrier);
            proof {
                assert(batch@ =~= old(batch)@ + barrier_seq(b));
            }
        },
    }
}

} // verus!
