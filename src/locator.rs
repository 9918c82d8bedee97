//! Discovery of the metrics endpoint: candidate ports are probed in a fixed
//! order and the first that answers with a success status is used.

use vstd::prelude::*;

verus! {

/// The first candidate port.
pub const FIRST_PORT: u16 = 5000;

/// How many consecutive ports, from `FIRST_PORT` on, are candidates.
pub const PORT_COUNT: usize = 6;

/// The candidate port probed `i`-th.
pub open spec fn candidate(i: int) -> u16 {
    (FIRST_PORT + i) as u16
}

/// What discovery does next.
#[derive(Clone, Copy, Debug, PartialEq, Eq, Structural)]
pub enum ProbeStep {
    /// Send a health request to this port.
    Probe(u16),
    /// This port answered with a success status.
    Found(u16),
    /// No candidate answered.
    NotFound,
}

/// The next step when `results[k]` is whether the `k`-th candidate answered
/// with success, looking from candidate `i` on.
pub open spec fn locate_from(results: Seq<bool>, i: int) -> ProbeStep
    decreases PORT_COUNT - i,
{
    if i < 0 || i >= PORT_COUNT {
        ProbeStep::NotFound
    } else if i >= results.len() {
        ProbeStep::Probe(candidate(i))
    } else if results[i] {
        ProbeStep::Found(candidate(i))
    } else {
        locate_from(results, i + 1)
    }
}

/// The port probed `i`-th.
pub fn candidate_port(i: usize) -> (r: Option<u16>)
    ensures
        r == if i < PORT_COUNT { Some(candidate(i as int)) } else { None::<u16> },
{
    if i < PORT_COUNT {
        Some(FIRST_PORT + i as u16)
    } else {
        None
    }
}

/// Given the outcomes of the probes made so far, in order, decides the next
/// step of one discovery pass: the first success wins, a missing outcome
/// is probed next, and all candidates failing means not found.
pub fn next_probe(results: &Vec<bool>) -> (r: ProbeStep)
    ensures
        r == locate_from(results@, 0),
{
    let mut i: usize = 0;
    while i < PORT_COUNT
        invariant
            i <= PORT_COUNT,
            locate_from(results@, i as int) == locate_from(results@, 0),
        decreases PORT_COUNT - i,
    {
        if i >= results.len() {
            return ProbeStep::Probe(FIRST_PORT + i as u16);
        }
        if results[i] {
            return ProbeStep::Found(FIRST_PORT + i as u16);
        }
        i += 1;
    }
    ProbeStep::NotFound
}

} // verus!
