//! The lines of a report.
use vstd::prelude::*;
use crate::decimal::{append_decimal, decimal};

verus! {

/// The line for iteration `i`, which took `micros` microseconds.
pub open spec fn iteration_text(i: nat, micros: nat) -> Seq<char> {
    "Iter:"@ + decimal(i) + " time "@ + decimal(micros) + " us"@
}

/// The closing line for a run that took `total` microseconds, `average` for
/// each iteration.
pub open spec fn summary_text(total: nat, average: nat) -> Seq<char> {
    "Total:"@ + decimal(total) + " us, Avg: "@ + decimal(average) + " us"@
}

/// The sum of the samples.
pub open spec fn total_of(samples: Seq<u64>) -> nat
    decreases samples.len(),
{
    if samples.len() == 0 {
        0
    } else {
        total_of(samples.drop_last()) + samples.last() as nat
    }
}

/// The line for iteration `i`, which took `micros` microseconds.
pub fn iteration_line(i: usize, micros: u64) -> (line: String)
    ensures
        line@ == iteration_text(i as nat, micros as nat),
{
    let mut line = String::from_str("Iter:");
    append_decimal(&mut line, i as u128);
    line.append(" time ");
    append_decimal(&mut line, micros as u128);
    line.append(" us");
    line
}

/// The closing line for a run that took `total` microseconds, `average` for
/// each iteration.
pub fn summary_line(total: u128, average: u128) -> (line: String)
    ensures
        line@ == summary_text(total as nat, average as nat),
{
    let mut line = String::from_str("Total:");
    append_decimal(&mut line, total);
    line.append(" us, Avg: ");
    append_decimal(&mut line, average);
    line.append(" us");
    line
}

/// No sample is above `u64::MAX`, so their sum is at most that many times
/// their number.
pub proof fn lemma_total_bound(samples: Seq<u64>)
    ensures
        total_of(samples) <= samples.len() * u64::MAX,
    decreases samples.len(),
{
    if samples.len() > 0 {
        lemma_total_bound(samples.drop_last());
        assert((samples.len() - 1) * u64::MAX + u64::MAX == samples.len() * u64::MAX)
            by (nonlinear_arith);
    }
}

/// Adds the samples up. The sum of as many samples as a vector can hold
/// fits 128 bits.
pub fn total_micros(samples: &Vec<u64>) -> (total: u128)
    ensures
        total == total_of(samples@),
{
    let mut total: u128 = 0;
    let mut i: usize = 0;
    while i < samples.len()
        invariant
            i <= samples.len(),
            total == total_of(samples@.take(i as int)),
        decreases samples.len() - i,
    {
        proof {
            let next = samples@.take(i + 1);
            assert(next.drop_last() =~= samples@.take(i as int));
            lemma_total_bound(next);
            assert(next.len() * u64::MAX <= usize::MAX * u64::MAX) by (nonlinear_arith)
                requires
                    next.len() <= usize::MAX,
            ;
            assert(usize::MAX * u64::MAX <= u64::MAX * u64::MAX) by (nonlinear_arith)
                requires
                    usize::MAX <= u64::MAX,
            ;
        }
        total = total + samples[i] as u128;
        i += 1;
    }
    assert(samples@.take(i as int) =~= samples@);
    total
}

} // verus!
