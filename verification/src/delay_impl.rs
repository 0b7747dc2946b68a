//! Planning of the simpler run-time delay: iterations of a fixed 4-cycle
//! busy loop, split into a 16-bit inner run and an outer run of full wraps.

use vstd::prelude::*;

verus! {

/// A run of the 4-cycle busy loop: `inner` iterations first (skipped when
/// zero), then `outer` full wraps of `2^16` iterations each.
#[derive(Clone, Copy, PartialEq, Eq, Structural, Debug)]
pub struct LoopPlan {
    pub inner: u16,
    pub outer: u32,
}

impl LoopPlan {
    /// Total iterations of the 4-cycle loop the plan runs.
    pub open spec fn iterations(self) -> int {
        self.inner + self.outer * 0x1_0000
    }

    /// Cycles the plan consumes, at four per iteration.
    pub open spec fn cycles(self) -> int {
        4 * self.iterations()
    }
}

/// Splits a 32-bit iteration count into the inner run and the outer wraps;
/// the plan runs exactly `count` iterations.
pub fn delay_count_32(count: u32) -> (r: LoopPlan)
    ensures
        r.iterations() == count,
        r.outer <= 0xFFFF,
{
    proof {
        vstd::arithmetic::div_mod::lemma_fundamental_div_mod(count as int, 0x1_0000);
        vstd::arithmetic::div_mod::lemma_mod_division_less_than_divisor(count as int, 0x1_0000);
    }
    let inner: u16 = (count % 0x1_0000) as u16;
    let outer: u32 = count / 0x1_0000;
    LoopPlan { inner, outer }
}

/// Splits a wider iteration count the same way; the outer counter is 32 bits,
/// so the top 16 bits of `count` are ignored.
pub fn delay_count_48(count: u64) -> (r: LoopPlan)
    ensures
        r.iterations() == count % 0x1_0000_0000_0000,
{
    proof {
        vstd::arithmetic::div_mod::lemma_mod_breakdown(count as int, 0x1_0000, 0x1_0000_0000);
        vstd::arithmetic::div_mod::lemma_mod_division_less_than_divisor(count as int, 0x1_0000);
        vstd::arithmetic::div_mod::lemma_mod_division_less_than_divisor(
            (count as int) / 0x1_0000,
            0x1_0000_0000,
        );
    }
    let inner: u16 = (count % 0x1_0000) as u16;
    let outer: u32 = ((count / 0x1_0000) % 0x1_0000_0000) as u32;
    LoopPlan { inner, outer }
}

} // verus!
