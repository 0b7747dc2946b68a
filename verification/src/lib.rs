//! Busy-wait delay planning for AVR-style microcontrollers.
//!
//! Given a cycle budget known at build time, the library decides which
//! combination of fixed-cost counter loops (8, 16, 24 and 32 bits wide) plus a
//! short remainder tail consumes exactly that many cycles with the fewest
//! instructions.  The decision is pure integer arithmetic and is fully
//! verified; emitting the machine instructions that realize a plan is left to
//! the target-specific caller.

use vstd::prelude::*;

pub mod delay_cycles;
pub mod delay_impl;

verus! {

/// Four cycles per loop iteration times a thousand milliseconds in a second:
/// dividing `hertz * milliseconds` by it gives loop iterations.
pub const TICK_DIVISOR_MS: u64 = 4_000;

/// Four cycles per loop iteration times a million microseconds in a second.
pub const TICK_DIVISOR_US: u64 = 4_000_000;

/// Relies on `avr_config::CPU_FREQUENCY_HZ`: the target clock rate in Hz,
/// fixed when the crate is configured and built, so nothing can be promised
/// of the value itself.
#[verifier::external_body]
fn cpu_frequency_hz() -> u32 {
    avr_config::CPU_FREQUENCY_HZ
}

/// Iterations of the 4-cycle loop that span `count` time units on a clock of
/// `freq_hz`: the product is widened and taken before the division, so the
/// tick count is exact.
pub open spec fn spec_ticks(freq_hz: u32, count: u32, divisor: u64) -> int {
    (freq_hz * count) / (divisor as int)
}

/// Computes `spec_ticks` in executable code.
pub fn ticks_for(freq_hz: u32, count: u32, divisor: u64) -> (r: u64)
    requires
        divisor >= 1,
    ensures
        r == spec_ticks(freq_hz, count, divisor),
{
    proof {
        assert((freq_hz as int) * (count as int) <= (u32::MAX as int) * (u32::MAX as int))
            by (nonlinear_arith)
            requires
                freq_hz <= u32::MAX,
                count <= u32::MAX,
        ;
    }
    let ticks: u64 = (freq_hz as u64) * (count as u64);
    ticks / divisor
}

/// Plans a variable busy wait of `count` iterations of the 4-cycle loop.
pub fn delay(count: u32) -> (r: delay_impl::LoopPlan)
    ensures
        r.iterations() == count,
{
    delay_impl::delay_count_32(count)
}

/// Plans a busy wait of `ms` milliseconds at the build-time clock rate: for
/// whatever rate the configuration supplies, the plan runs the exact tick
/// count of that many milliseconds.
pub fn delay_ms(ms: u32) -> (r: delay_impl::LoopPlan)
    ensures
        exists|freq_hz: u32|
            r.iterations() == #[trigger] spec_ticks(freq_hz, ms, TICK_DIVISOR_MS)
                % 0x1_0000_0000_0000,
{
    let freq_hz = cpu_frequency_hz();
    let ticks: u64 = ticks_for(freq_hz, ms, TICK_DIVISOR_MS);
    let r = delay_impl::delay_count_48(ticks);
    proof {
        assert(r.iterations() == spec_ticks(freq_hz, ms, TICK_DIVISOR_MS) % 0x1_0000_0000_0000);
    }
    r
}

/// Plans a busy wait of `us` microseconds at the build-time clock rate, as
/// `delay_ms` does for milliseconds.
pub fn delay_us(us: u32) -> (r: delay_impl::LoopPlan)
    ensures
        exists|freq_hz: u32|
            r.iterations() == #[trigger] spec_ticks(freq_hz, us, TICK_DIVISOR_US)
                % 0x1_0000_0000_0000,
{
    let freq_hz = cpu_frequency_hz();
    let ticks: u64 = ticks_for(freq_hz, us, TICK_DIVISOR_US);
    let r = delay_impl::delay_count_48(ticks);
    proof {
        assert(r.iterations() == spec_ticks(freq_hz, us, TICK_DIVISOR_US) % 0x1_0000_0000_0000);
    }
    r
}

} // verus!
