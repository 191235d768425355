use vstd::prelude::*;

verus! {

/// Whether repositories are moved, or the moves are only reported.
#[derive(Copy, Clone, Eq, PartialEq, Structural, Debug)]
pub enum Mode {
    Execute,
    Simulate,
}

impl Default for Mode {
    fn default() -> (r: Mode)
        ensures
            r == Mode::Simulate,
    {
        Mode::Simulate
    }
}

} // verus!
