//! Launch handoff for a desktop shell: collect the start-up arguments that
//! name existing regular files, then relay them to the frontend through a
//! one-shot notification once the frontend signals that it is ready.

use vstd::prelude::*;

pub mod args;
pub mod relay;

verus! {

use crate::args::{collect_file_args, is_selection_of, tail_of};
use crate::relay::{Phase, Relay};

/// The whole start-up configuration step: collect the launch arguments that
/// name existing regular files, then arm the relay with them. The relay is
/// armed exactly when something was collected; only then does the host
/// register a listener for the readiness signal.
pub fn configure(args: &Vec<String>) -> (r: Relay)
    ensures
        r.wf(),
        is_selection_of(r.collected(), tail_of(args@)),
        r.spec_phase() == (if r.collected().len() == 0 {
            Phase::Idle
        } else {
            Phase::Armed
        }),
{
    Relay::new(collect_file_args(args))
}

} // verus!
