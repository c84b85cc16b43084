//! Per-warrior identity and base stats.

use vstd::prelude::*;

verus! {

/// Which warrior a character is; selects its sprite atlas and base
/// stats. A single warrior is active today; the enum is the extension
/// point for more.
#[derive(Clone, Copy, PartialEq, Eq, Structural, Debug)]
pub enum WarriorKind {
    Jotaile,
}

/// Movement magnitudes, in subpixels per second, used to scale the
/// horizontal walk intent and the vertical jump intent.
#[derive(Clone, Copy, PartialEq, Eq, Structural, Debug)]
pub struct Speed {
    pub walk: u32,
    pub jump: u32,
}

impl Default for Speed {
    fn default() -> (s: Speed)
        ensures
            s.walk == 0 && s.jump == 0,
    {
        Speed { walk: 0, jump: 0 }
    }
}

} // verus!
