//! The GPIO sweep: every header pin from 1 to 40 is raised in turn, one
//! per second, and kept high.

use vstd::prelude::*;

verus! {

/// The first pin of the sweep.
pub const FIRST_SWEEP_PIN: u8 = 1;
/// The last pin of the sweep.
pub const LAST_SWEEP_PIN: u8 = 40;
/// Pause after each pin, in milliseconds.
pub const SWEEP_PAUSE_MS: u64 = 1000;

/// The pins of the sweep, in the order they are raised: 1, 2, ..., 40.
pub fn sweep_pins() -> (pins: Vec<u8>)
    ensures
        pins@.len() == (LAST_SWEEP_PIN - FIRST_SWEEP_PIN + 1) as nat,
        forall|i: int| 0 <= i < pins@.len() ==> pins@[i] == FIRST_SWEEP_PIN + i,
{
    let mut pins: Vec<u8> = Vec::new();
    let mut p: u8 = FIRST_SWEEP_PIN;
    while p <= LAST_SWEEP_PIN
        invariant
            FIRST_SWEEP_PIN <= p <= LAST_SWEEP_PIN + 1,
            pins@.len() == (p - FIRST_SWEEP_PIN) as nat,
            forall|i: int| 0 <= i < pins@.len() ==> pins@[i] == FIRST_SWEEP_PIN + i,
        decreases LAST_SWEEP_PIN + 1 - p,
    {
        pins.push(p);
        p = p + 1;
    }
    pins
}

} // verus!
