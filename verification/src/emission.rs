//! The emission loop's body: roll a die, fix the line to print and the
//! value to record, then sleep for the fixed interval.
//!
//! The random draw is the one outside call; everything decided from it is
//! verified: the value lies in 1..=6, the printed line is exactly the
//! decimal rendering of the recorded value, and the reading carries no
//! per-reading attributes.

use vstd::prelude::*;
use crate::decimal::{dec_rep, dec_val, format_u32, lemma_dec_val_dec_rep};
use crate::providers::Attribute;

verus! {

/// The lower bound of a die roll, inclusive.
pub const DIE_LOW: u32 = 1;

/// The upper bound of a die roll, exclusive.
pub const DIE_HIGH: u32 = 7;

/// How long the loop suspends between iterations, in seconds.
pub const LOOP_INTERVAL_SECS: u64 = 3;

#[verifier::external_type_specification]
#[verifier::external_body]
pub struct ExThreadRng(rand::rngs::ThreadRng);

/// Relies on rand's Rng::gen_range over the half-open range `low..high`:
/// the sample lies in `[low, high)`; it panics on an empty range, which
/// `requires` rules out.
#[verifier::external_body]
fn sample_in_range(rng: &mut rand::rngs::ThreadRng, low: u32, high: u32) -> (r: u32)
    requires
        low < high,
    ensures
        low <= r < high,
{
    rand::Rng::gen_range(rng, low..high)
}

/// Rolls the six-sided die: an integer in {1, 2, 3, 4, 5, 6} — never 0,
/// never 7. The upper bound of the range call is exclusive, the lower
/// inclusive.
pub fn roll_die(rng: &mut rand::rngs::ThreadRng) -> (r: u32)
    ensures
        DIE_LOW <= r < DIE_HIGH,
{
    sample_in_range(rng, DIE_LOW, DIE_HIGH)
}

/// One iteration of the emission loop, decided: the rolled value, the line
/// that is printed for it, the attributes of the recorded reading, and how
/// long to sleep afterward.
pub struct EmissionStep {
    pub value: u32,
    pub line: String,
    pub attributes: Vec<Attribute>,
    pub sleep_secs: u64,
}

/// Produces one emission step: rolls the die and fixes everything the loop
/// does with the outcome. The printed line is the decimal rendering of the
/// recorded value — no transformation stands between print and record —
/// and the reading carries an empty attribute set.
pub fn emission_step(rng: &mut rand::rngs::ThreadRng) -> (step: EmissionStep)
    ensures
        DIE_LOW <= step.value < DIE_HIGH,
        step.line@ == dec_rep(step.value as nat),
        step.attributes@ =~= Seq::<Attribute>::empty(),
        step.sleep_secs == LOOP_INTERVAL_SECS,
{
    let value = roll_die(rng);
    let line = format_u32(value);
    EmissionStep { value, line, attributes: Vec::new(), sleep_secs: LOOP_INTERVAL_SECS }
}

/// The printed line and the recorded value match exactly: the line denotes
/// the recorded value and no other.
pub proof fn lemma_line_denotes_value(line: Seq<char>, value: u32)
    requires
        line == dec_rep(value as nat),
    ensures
        dec_val(line) == value,
{
    lemma_dec_val_dec_rep(value as nat);
}

} // verus!
