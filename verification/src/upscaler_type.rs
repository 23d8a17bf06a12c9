//! Upscaler selection state: which resample variant a dispatch takes and
//! whether the diagnostic grid is drawn.
//!
//! The state is a small record threaded through every call. The overlay layer
//! writes it on user input; the dispatch engine reads it once per dispatch.
//! Each field is one small discrete value, so a reader observing an older
//! value for an in-flight dispatch is acceptable by design.

use vstd::prelude::*;

verus! {

/// The dispatch variant a caller has selected: a plain region copy, a
/// bilinear-style shader resample, or the higher-quality shader resample.
#[derive(Clone, Copy, PartialEq, Eq, Structural, Debug)]
pub enum UpscalerType {
    Passthrough,
    Bilinear,
    Lanczos,
}

impl UpscalerType {
    /// The variant after this one in the forward cycle.
    pub open spec fn next_spec(self) -> Self {
        match self {
            UpscalerType::Passthrough => UpscalerType::Bilinear,
            UpscalerType::Bilinear => UpscalerType::Lanczos,
            UpscalerType::Lanczos => UpscalerType::Passthrough,
        }
    }

    /// The variant before this one in the forward cycle.
    pub open spec fn prev_spec(self) -> Self {
        match self {
            UpscalerType::Passthrough => UpscalerType::Lanczos,
            UpscalerType::Bilinear => UpscalerType::Passthrough,
            UpscalerType::Lanczos => UpscalerType::Bilinear,
        }
    }

    /// Cycle forward through the variants.
    pub fn next(self) -> (r: Self)
        ensures
            r == self.next_spec(),
    {
        match self {
            UpscalerType::Passthrough => UpscalerType::Bilinear,
            UpscalerType::Bilinear => UpscalerType::Lanczos,
            UpscalerType::Lanczos => UpscalerType::Passthrough,
        }
    }

    /// Cycle backward through the variants.
    pub fn prev(self) -> (r: Self)
        ensures
            r == self.prev_spec(),
    {
        match self {
            UpscalerType::Passthrough => UpscalerType::Lanczos,
            UpscalerType::Bilinear => UpscalerType::Passthrough,
            UpscalerType::Lanczos => UpscalerType::Bilinear,
        }
    }
}

/// Stepping forward and then backward (or backward and then forward) returns
/// to the starting variant: the two cycles are inverses.
pub proof fn lemma_next_prev_inverse(t: UpscalerType)
    ensures
        t.next_spec().prev_spec() == t,
        t.prev_spec().next_spec() == t,
{
}

/// The selection record read by the dispatch engine on every call.
#[derive(Clone, Copy, PartialEq, Eq, Structural, Debug)]
pub struct SelectionState {
    pub active: UpscalerType,
    pub debug_view: bool,
}

impl Default for SelectionState {
    /// The higher-quality resample is active and the diagnostic grid is off
    /// until a user changes either.
    fn default() -> (r: Self)
        ensures
            r == (SelectionState { active: UpscalerType::Lanczos, debug_view: false }),
    {
        SelectionState { active: UpscalerType::Lanczos, debug_view: false }
    }
}

/// Read the active resample variant.
pub fn get(s: &SelectionState) -> (r: UpscalerType)
    ensures
        r == s.active,
{
    s.active
}

/// Select a resample variant; the diagnostic toggle is untouched.
pub fn set(s: &mut SelectionState, t: UpscalerType)
    ensures
        final(s).active == t,
        final(s).debug_view == old(s).debug_view,
{
    s.active = t;
}

/// Read the diagnostic-grid toggle.
pub fn debug_view_get(s: &SelectionState) -> (r: bool)
    ensures
        r == s.debug_view,
{
    s.debug_view
}

/// Switch the diagnostic grid on or off; the variant is untouched.
pub fn debug_view_set(s: &mut SelectionState, on: bool)
    ensures
        final(s).debug_view == on,
        final(s).active == old(s).active,
{
    s.debug_view = on;
}

} // verus!
