//! A delayed, one-shot task orchestrator: it validates a calendar target,
//! waits until it arrives, resolves and runs an external collector program
//! with serialized parameters, and reports the outcome, optionally by mail.
//! The decisions live here, verified; a thin shell does the waiting, the
//! process handling and the transport.

pub mod calendar;
pub mod notifier;
pub mod params;
pub mod resolver;
pub mod runner;
pub mod schedule;
pub mod strutil;

use vstd::prelude::*;

verus! {

/// Index of the first `true` entry, if any.
pub fn first_true(flags: &Vec<bool>) -> (r: Option<usize>)
    ensures
        match r {
            Some(i) => i < flags@.len() && flags@[i as int] && forall|j: int|
                0 <= j < i ==> !flags@[j],
            None => forall|j: int| 0 <= j < flags@.len() ==> !flags@[j],
        },
{
    let mut i: usize = 0;
    while i < flags.len()
        invariant
            i <= flags@.len(),
            forall|j: int| 0 <= j < i ==> !flags@[j],
        decreases flags@.len() - i,
    {
        if flags[i] {
            return Some(i);
        }
        i += 1;
    }
    None
}

} // verus!

