//! Filesystem usage feed: turns a block-count sample into the percentage of
//! used blocks, rounded up, and into the status line printed for one cycle.
//!
//! A cycle of this feed reads total and free block counts for a path, and
//! prints `{prefix}{percentage}{postfix}` on success. A failed read, a
//! report of zero total blocks, or one of more free than total blocks,
//! yields no line at all for that cycle.

use vstd::prelude::*;

use crate::digits::spec_digits;
use crate::digits::u128_to_string;

verus! {

/// Ceiling of `a / b` for positive `b` and non-negative `a`.
pub open spec fn ceil_div(a: int, b: int) -> int
    recommends
        0 <= a,
        0 < b,
{
    (a + b - 1) / b
}

/// Percentage of used blocks, rounded up to the nearest integer.
pub open spec fn spec_used_percentage(total: u64, free: u64) -> int
    recommends
        0 < total,
        free <= total,
{
    ceil_div((total - free) * 100, total as int)
}

/// The used-block percentage for a filesystem report of `total` blocks of
/// which `free` are free: the ceiling of `(total - free) / total * 100`.
/// A report of zero total blocks, or of more free than total blocks, has no
/// meaningful percentage and yields `None`.
pub fn used_percentage(total: u64, free: u64) -> (r: Option<u64>)
    ensures
        r is Some <==> (0 < total && free <= total),
        r matches Some(p) ==> p == spec_used_percentage(total, free) && p <= 100,
{
    if total == 0 || free > total {
        None
    } else {
        let used: u128 = (total - free) as u128;
        let t: u128 = total as u128;
        proof {
            assert(used * 100 + (t - 1) <= 0xffff_ffff_ffff_ffff * 100 + (t - 1))
                by (nonlinear_arith)
                requires
                    used <= 0xffff_ffff_ffff_ffff,
            ;
            assert((used * 100 + (t as int - 1)) / (t as int) <= 100) by (nonlinear_arith)
                requires
                    0 < t,
                    used <= t,
            ;
        }
        let p: u128 = (used * 100 + (t - 1)) / t;
        Some(p as u64)
    }
}

/// The percentage `p` computed by `used_percentage` is exactly the ceiling
/// of the used fraction times 100: it lies in `[0, 100]`, at least the exact
/// fraction, and less than one whole percent above it.
pub proof fn lemma_used_percentage_is_ceiling(total: u64, free: u64)
    requires
        0 < total,
        free <= total,
    ensures
        ({
            let p = spec_used_percentage(total, free);
            let used = total - free;
            &&& 0 <= p <= 100
            &&& used * 100 <= p * (total as int)
            &&& (p - 1) * (total as int) < used * 100
        }),
{
    let p = spec_used_percentage(total, free);
    let used = total - free;
    assert(0 <= p <= 100 && used * 100 <= p * (total as int) && (p - 1) * (total as int) < used
        * 100) by (nonlinear_arith)
        requires
            0 < total,
            free <= total,
            p == ((total - free) * 100 + (total as int - 1)) / (total as int),
            used == total - free,
    ;
}

/// The status line `{prefix}{percentage}{postfix}`.
pub fn disk_line(prefix: &str, percentage: u64, postfix: &str) -> (r: String)
    ensures
        r@ == prefix@ + spec_digits(percentage as nat) + postfix@,
{
    let digits = u128_to_string(percentage as u128);
    let r = String::from_str(prefix).concat(digits.as_str()).concat(postfix);
    proof {
        assert(r@ =~= prefix@ + spec_digits(percentage as nat) + postfix@);
    }
    r
}

/// One cycle of the disk feed, from the outcome of the block-count read
/// (`Ok(total, free)` or the failing status code) to the line to print:
/// a line comes out if and only if the read succeeded and reported a sane
/// pair of counts, and a failed cycle produces no output at all.
pub fn disk_cycle(stats: Result<(u64, u64), i32>, prefix: &str, postfix: &str) -> (r: Option<
    String,
>)
    ensures
        r is Some <==> (stats is Ok && 0 < stats->Ok_0.0 && stats->Ok_0.1 <= stats->Ok_0.0),
        r matches Some(line) ==> line@ == prefix@ + spec_digits(
            spec_used_percentage(stats->Ok_0.0, stats->Ok_0.1) as nat,
        ) + postfix@,
{
    match stats {
        Err(_) => None,
        Ok((total, free)) => match used_percentage(total, free) {
            None => None,
            Some(p) => Some(disk_line(prefix, p, postfix)),
        },
    }
}

} // verus!
