//! The shared state of a signal generator and the decision its sampling
//! loop takes before every sample.

use atomic_float::AtomicF64;
use std::sync::atomic::AtomicBool;
use std::sync::atomic::Ordering;
use std::sync::Arc;
use vstd::prelude::*;

verus! {

/// The lock-free float cell of `atomic_float`, which holds the amplitude
/// and the frequency of a generator. Its contents are never read here.
#[verifier::external_type_specification]
#[verifier::external_body]
pub struct ExAtomicF64(atomic_float::AtomicF64);

/// Period, in milliseconds, that a running generator waits after each sample.
pub const SAMPLE_PERIOD_MS: u64 = 10;

/// A signal generator: a flag that keeps it running, and the amplitude and
/// the frequency (the step of `x` between two samples) that the client may
/// change while it runs. All three are shared with the connection handler.
pub struct Signals {
    pub is_working: Arc<AtomicBool>,
    pub amplitude: Arc<AtomicF64>,
    pub frequency: Arc<AtomicF64>,
}

/// What a generator does next.
#[derive(Clone, Copy, Debug, PartialEq, Eq, Structural)]
pub enum GeneratorStep {
    /// Send one more sample, then wait `SAMPLE_PERIOD_MS` milliseconds.
    Emit,
    /// Leave the sampling loop; the generator is done.
    Finish,
}

/// The step that a generator takes when its running flag reads `working`.
pub open spec fn spec_generator_step(working: bool) -> GeneratorStep {
    if working {
        GeneratorStep::Emit
    } else {
        GeneratorStep::Finish
    }
}

/// Decides the next step of a generator from the value its running flag had.
pub fn generator_step(working: bool) -> (step: GeneratorStep)
    ensures
        step == spec_generator_step(working),
        step == GeneratorStep::Finish <==> !working,
{
    if working {
        GeneratorStep::Emit
    } else {
        GeneratorStep::Finish
    }
}

impl Signals {
    /// Builds a generator over the three shared cells, keeping each one.
    pub fn new(state: Arc<AtomicBool>, ampl: Arc<AtomicF64>, freq: Arc<AtomicF64>) -> (s: Signals)
        ensures
            s.is_working == state,
            s.amplitude == ampl,
            s.frequency == freq,
    {
        Signals { is_working: state, amplitude: ampl, frequency: freq }
    }

    /// Reads the running flag and decides the next step from the value read,
    /// as `generator_step` does. Another task may clear the flag at any time,
    /// so nothing fixes which of the two steps comes back.
    pub fn next_step(&self) -> GeneratorStep {
        let working = self.is_working.load(Ordering::Relaxed);
        generator_step(working)
    }
}

} // verus!
