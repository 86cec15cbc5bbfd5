//! Tools for working on the game while it runs.

use vstd::prelude::*;

pub mod editor;

verus! {

/// Whether the tools are switched on.
#[derive(Debug, Copy, Clone, Hash, PartialEq, Eq, Structural)]
pub enum DebugState {
    Off,
    On,
}

impl Default for DebugState {
    fn default() -> (r: Self)
        ensures
            r == DebugState::Off,
    {
        DebugState::Off
    }
}

/// What runs only while the tools are switched on.
#[derive(Debug, Copy, Clone, Hash, PartialEq, Eq, Structural)]
pub struct DebugUpdateSet;

impl DebugState {
    /// The other state.
    pub open spec fn toggled(self) -> DebugState {
        match self {
            DebugState::Off => DebugState::On,
            DebugState::On => DebugState::Off,
        }
    }
}

impl DebugUpdateSet {
    /// Whether what runs only with the tools runs in `state`.
    pub fn runs_in(&self, state: DebugState) -> (r: bool)
        ensures
            r == (state == DebugState::On),
    {
        match state {
            DebugState::On => true,
            DebugState::Off => false,
        }
    }
}

/// The state after the key that switches the tools was looked at: the other
/// state where the key went down in this tick, in a build that has the
/// tools; else none.
pub fn toggle_debug_state(debug_state: DebugState, pressed: bool, tools_built: bool) -> (r: Option<
    DebugState,
>)
    ensures
        r == if pressed && tools_built {
            Some(debug_state.toggled())
        } else {
            None
        },
{
    if tools_built && pressed {
        match debug_state {
            DebugState::Off => Some(DebugState::On),
            DebugState::On => Some(DebugState::Off),
        }
    } else {
        None
    }
}

/// With the tools on, the bodies are drawn and the labels are seen.
pub fn enable_debug_state() -> (r: bool)
    ensures
        r,
{
    true
}

/// With the tools off, no body is drawn and no label is seen.
pub fn disable_debug_state() -> (r: bool)
    ensures
        !r,
{
    false
}

} // verus!
