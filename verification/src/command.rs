//! The commands a client sends to retune its generator.

use vstd::prelude::*;

verus! {

/// The generator parameter that a command changes.
#[derive(Clone, Copy, Debug, PartialEq, Eq, Structural)]
pub enum CommandTarget {
    /// The factor by which the sine is scaled.
    Amplitude,
    /// The step of `x` between two samples.
    Frequency,
}

/// The parameter named by a command's `action`: `change_amplitude` names the
/// amplitude, `change_frequency` the frequency, and any other text nothing.
pub open spec fn spec_parse_action(action: Seq<char>) -> Option<CommandTarget> {
    if action == "change_amplitude"@ {
        Some(CommandTarget::Amplitude)
    } else if action == "change_frequency"@ {
        Some(CommandTarget::Frequency)
    } else {
        None
    }
}

/// Whether two texts hold the same characters.
fn same_text(a: &str, b: &str) -> (same: bool)
    ensures
        same == (a@ == b@),
{
    let n = a.unicode_len();
    if n != b.unicode_len() {
        return false;
    }
    let mut i: usize = 0;
    while i < n
        invariant
            n == a@.len(),
            n == b@.len(),
            i <= n,
            forall|j: int| 0 <= j < i ==> a@[j] == b@[j],
        decreases n - i,
    {
        if a.get_char(i) != b.get_char(i) {
            return false;
        }
        i = i + 1;
    }
    assert(a@ =~= b@);
    true
}

/// Finds the parameter that a command's `action` names, if any.
pub fn parse_action(action: &str) -> (target: Option<CommandTarget>)
    ensures
        target == spec_parse_action(action@),
{
    if same_text(action, "change_amplitude") {
        Some(CommandTarget::Amplitude)
    } else if same_text(action, "change_frequency") {
        Some(CommandTarget::Frequency)
    } else {
        None
    }
}

} // verus!
