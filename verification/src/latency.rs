//! The stopwatch that times each call of a subscriber.

use vstd::prelude::*;

verus! {

/// The stopwatch of the `solana_measure` crate.
#[verifier::external_type_specification]
#[verifier::external_body]
pub struct ExMeasure(solana_measure::measure::Measure);

/// `Measure::start` reads the clock and returns a running stopwatch. Nothing is
/// claimed of it.
pub assume_specification[ solana_measure::measure::Measure::start ](name: &'static str) -> (measure:
    solana_measure::measure::Measure);

/// `Measure::stop` reads the clock again and stores the time since the start. Nothing
/// is claimed of what it stores.
pub assume_specification[ solana_measure::measure::Measure::stop ](
    measure: &mut solana_measure::measure::Measure,
);

/// `Measure::as_us` returns the stored time in microseconds. It depends on the clock,
/// so nothing is claimed of it.
pub assume_specification[ solana_measure::measure::Measure::as_us ](
    measure: &solana_measure::measure::Measure,
) -> (micros: u64);

} // verus!
