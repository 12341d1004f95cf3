//! The benchmark's parameter sweep: the Cartesian combination of pool sizes
//! and string lengths, each run once per sharing strategy.
//!
//! Combinations are ordered pool-size-outer, string-length-inner, strategy
//! innermost, with the shared-ownership strategy first; the order affects
//! only report row sequencing.
use crate::STR_SIZE_MAX;
use vstd::prelude::*;

verus! {

/// One combination of the sweep: a pool size, a string length, and whether
/// the run uses the shared-ownership strategy (otherwise cloning).
#[derive(Clone, Copy, Debug, PartialEq, Eq, Structural)]
pub struct SweepCase {
    pub num_strings: usize,
    pub strlen: usize,
    pub shared: bool,
}

impl SweepCase {
    /// The strategy identifier its report row is tagged with.
    pub fn tag(&self) -> (r: &'static str)
        ensures
            self.shared ==> r@ == "A"@,
            !self.shared ==> r@ == "C"@,
    {
        if self.shared {
            "A"
        } else {
            "C"
        }
    }
}

/// The pool sizes swept, in order.
pub open spec fn pool_size_at(j: int) -> usize {
    if j == 0 {
        1
    } else if j == 1 {
        8
    } else {
        128
    }
}

/// The string lengths swept, in order.
pub open spec fn strlen_at(j: int) -> usize {
    if j == 0 {
        16
    } else if j == 1 {
        32
    } else if j == 2 {
        64
    } else if j == 3 {
        512
    } else {
        STR_SIZE_MAX
    }
}

/// The combination at position `i` of the sweep: ten rows per pool size (five
/// string lengths, each shared-ownership then cloning).
pub open spec fn sweep_case_at(i: int) -> SweepCase {
    SweepCase {
        num_strings: pool_size_at(i / 10),
        strlen: strlen_at((i % 10) / 2),
        shared: i % 2 == 0,
    }
}

/// The whole sweep, in report order: thirty combinations.
pub open spec fn sweep_plan() -> Seq<SweepCase> {
    Seq::new(30, |i: int| sweep_case_at(i))
}

/// Enumerate the sweep: every combination of pool size and string length,
/// shared-ownership then cloning, in report order.
pub fn sweep_cases() -> (r: Vec<SweepCase>)
    ensures
        r@ == sweep_plan(),
{
    let mut r: Vec<SweepCase> = Vec::new();
    let mut p: usize = 0;
    while p < 3
        invariant
            p <= 3,
            r@ == sweep_plan().take(p as int * 10),
        decreases 3 - p,
    {
        let num_strings: usize = if p == 0 {
            1
        } else if p == 1 {
            8
        } else {
            128
        };
        let mut s: usize = 0;
        while s < 5
            invariant
                p < 3,
                s <= 5,
                num_strings == pool_size_at(p as int),
                r@ == sweep_plan().take(p as int * 10 + s as int * 2),
            decreases 5 - s,
        {
            let strlen: usize = if s == 0 {
                16
            } else if s == 1 {
                32
            } else if s == 2 {
                64
            } else if s == 3 {
                512
            } else {
                STR_SIZE_MAX
            };
            let ghost i0: int = p as int * 10 + s as int * 2;
            proof {
                assert(i0 / 10 == p as int && (i0 + 1) / 10 == p as int && i0 % 10 == s as int * 2
                    && (i0 + 1) % 10 == s as int * 2 + 1 && i0 % 2 == 0 && (i0 + 1) % 2 == 1 && (s
                    as int * 2) / 2 == s as int && (s as int * 2 + 1) / 2 == s as int)
                    by (nonlinear_arith)
                    requires
                        0 <= p < 3,
                        0 <= s < 5,
                        i0 == p as int * 10 + s as int * 2,
                ;
            }
            r.push(SweepCase { num_strings, strlen, shared: true });
            r.push(SweepCase { num_strings, strlen, shared: false });
            proof {
                assert(r@ =~= sweep_plan().take(p as int * 10 + (s + 1) as int * 2));
            }
            s = s + 1;
        }
        p = p + 1;
    }
    proof {
        assert(r@ =~= sweep_plan());
    }
    r
}

/// The thread count a report row is labelled with: four times the hardware
/// thread count, while the run itself executes with the hardware thread
/// count. The mismatch is a historical quirk of the measurement methodology,
/// kept verbatim so reports stay comparable.
pub fn reported_threads(hw_threads: usize) -> (r: usize)
    requires
        hw_threads * 4 <= usize::MAX,
    ensures
        r == hw_threads * 4,
{
    hw_threads * 4
}

} // verus!
