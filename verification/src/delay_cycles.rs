//! The cycle-budget decomposition core: cost model, per-width selector and the
//! four-stage cascade that turns a budget into a delay plan.

use vstd::prelude::*;

verus! {

/// Greatest budget the cascade serves: the 32-bit stage at full wrap
/// (`9 + 6 * 0xFFFF_FFFF == 25_769_803_779`) plus the largest 5-cycle tail.
pub const MAX_SUPPORTED_CYCLES: u64 = 25_769_803_784;

/// Fixed cost of the busy-wait loop of one counter width.
///
/// `counter_mask` is `2^width - 1`; `cycles_per_run` the setup plus
/// final-iteration cost; `cycles_per_iter` the steady per-iteration cost; and
/// `max_cycles` the most this width can consume, reached when the counter
/// wraps through all `2^width` values.
#[derive(Clone, Copy, PartialEq, Eq, Structural, Debug)]
pub struct Cycles {
    pub counter_mask: u64,
    pub cycles_per_run: u64,
    pub cycles_per_iter: u64,
    pub max_cycles: u64,
}

impl Cycles {
    /// The costs are positive and `max_cycles` is exactly the cost of a full
    /// wrap, with no arithmetic overflow hidden in it.
    pub open spec fn wf(self) -> bool {
        &&& 1 <= self.cycles_per_run
        &&& 1 <= self.cycles_per_iter
        &&& 1 <= self.counter_mask < u64::MAX
        &&& self.max_cycles == self.cycles_per_run + self.cycles_per_iter * self.counter_mask
    }

    /// Number of loop iterations a selection runs on this width: the stored
    /// counter, with `0` standing for a full wrap through `2^width` values.
    pub open spec fn effective_iterations(self, s: Selection) -> int {
        if s.counter == 0 {
            self.counter_mask + 1
        } else {
            s.counter as int
        }
    }

    /// Cycles this width consumes under a selection: nothing when bypassed,
    /// else the fixed run cost plus the per-iteration cost of every iteration
    /// after the first.
    pub open spec fn stage_cycles(self, s: Selection) -> int {
        if s.selected {
            self.cycles_per_run + self.cycles_per_iter * (self.effective_iterations(s) - 1)
        } else {
            0
        }
    }
}

/// What one stage of the cascade does with the budget entering it.
///
/// When `selected`, `counter` is the initial value loaded into the hardware
/// counter (`0` meaning a full `2^width`-iteration wrap) and `remainder` is
/// the part of the budget this stage does not consume.  When bypassed, the
/// whole budget passes through as `remainder`.
#[derive(Clone, Copy, PartialEq, Eq, Structural, Debug)]
pub struct Selection {
    pub selected: bool,
    pub counter: u64,
    pub remainder: u64,
}

/// The one selection the stage `info` makes of the budget `budget` under the
/// bypass threshold `above`.  These clauses pin `s` completely:
/// - the stage is used exactly when the budget exceeds the threshold;
/// - a bypassed stage hands the budget on unchanged;
/// - a used stage consumes `stage_cycles` and hands on the rest (the
///   round-trip law);
/// - below capacity the counter is the exact value whose remainder falls
///   under one iteration; at or above capacity the counter wraps (`0`) and
///   the remainder is the overshoot past `max_cycles`.
pub open spec fn selection_of(info: Cycles, budget: u64, above: u64, s: Selection) -> bool {
    &&& s.selected == (budget > above)
    &&& (!s.selected ==> s.counter == 0 && s.remainder == budget)
    &&& (s.selected ==> {
        &&& s.counter <= info.counter_mask
        &&& info.stage_cycles(s) + s.remainder == budget
        &&& (budget < info.max_cycles ==> 0 < s.counter && s.remainder < info.cycles_per_iter)
        &&& (budget >= info.max_cycles ==> s.counter == 0 && s.remainder == budget
            - info.max_cycles)
    })
}

/// Decides whether the width described by `info` serves a budget, and if so
/// with which initial counter value and leftover remainder.
pub fn select(info: Cycles, budget: u64, above: u64) -> (r: Selection)
    requires
        info.wf(),
        above >= info.cycles_per_run,
    ensures
        selection_of(info, budget, above, r),
{
    if !(budget > above) {
        return Selection { selected: false, counter: 0, remainder: budget };
    }
    let ghost bi = budget as int;
    let ghost rn = info.cycles_per_run as int;
    let ghost it = info.cycles_per_iter as int;
    let ghost mk = info.counter_mask as int;
    let ghost d = bi - rn;
    proof {
        broadcast use vstd::arithmetic::mul::lemma_mul_is_commutative;

        vstd::arithmetic::div_mod::lemma_div_pos_is_pos(d, it);
        vstd::arithmetic::div_mod::lemma_div_nonincreasing(d, it);
        vstd::arithmetic::div_mod::lemma_fundamental_div_mod(d, it);
        vstd::arithmetic::div_mod::lemma_mod_division_less_than_divisor(d, it);
    }
    let quotient: u64 = (budget - info.cycles_per_run) / info.cycles_per_iter;
    let counter: u64 = quotient + 1;
    if counter > info.counter_mask {
        // The budget is at or past this width's capacity: wrap the counter
        // through all 2^width values and leave the overshoot as remainder.
        proof {
            broadcast use vstd::arithmetic::mul::lemma_mul_is_commutative;

            vstd::arithmetic::mul::lemma_mul_inequality(mk, d / it, it);
        }
        let consumed: u64 = info.cycles_per_run + info.cycles_per_iter * info.counter_mask;
        Selection { selected: true, counter: 0, remainder: budget - consumed }
    } else {
        proof {
            broadcast use vstd::arithmetic::mul::lemma_mul_is_commutative;
            broadcast use vstd::arithmetic::mul::lemma_mul_is_distributive_sub;

            vstd::arithmetic::mul::lemma_mul_inequality(d / it, mk - 1, it);
        }
        let consumed: u64 = info.cycles_per_run + info.cycles_per_iter * quotient;
        Selection { selected: true, counter, remainder: budget - consumed }
    }
}

/// Builds the cost model of one counter width, deriving `max_cycles`.
pub fn cycles(counter_mask: u64, cycles_per_run: u64, cycles_per_iter: u64) -> (r: Cycles)
    requires
        cycles_per_run + cycles_per_iter * counter_mask <= u64::MAX,
    ensures
        r.counter_mask == counter_mask,
        r.cycles_per_run == cycles_per_run,
        r.cycles_per_iter == cycles_per_iter,
        r.max_cycles == cycles_per_run + cycles_per_iter * counter_mask,
{
    Cycles {
        counter_mask,
        cycles_per_run,
        cycles_per_iter,
        max_cycles: cycles_per_run + cycles_per_iter * counter_mask,
    }
}

/// Cost model of the 32-bit counter loop: 8 instructions, 9 cycles per run,
/// 6 cycles per iteration.
pub open spec fn spec_u32_info() -> Cycles {
    Cycles {
        counter_mask: 0xFFFF_FFFF,
        cycles_per_run: 9,
        cycles_per_iter: 6,
        max_cycles: 25_769_803_779,
    }
}

/// Cost model of the 24-bit counter loop: 6 instructions, 7 cycles per run,
/// 5 cycles per iteration.
pub open spec fn spec_u24_info() -> Cycles {
    Cycles { counter_mask: 0xFF_FFFF, cycles_per_run: 7, cycles_per_iter: 5, max_cycles: 83_886_082 }
}

/// Cost model of the 16-bit counter loop: 4 instructions, 5 cycles per run,
/// 4 cycles per iteration.
pub open spec fn spec_u16_info() -> Cycles {
    Cycles { counter_mask: 0xFFFF, cycles_per_run: 5, cycles_per_iter: 4, max_cycles: 262_145 }
}

/// Cost model of the 8-bit counter loop: 3 instructions, 3 cycles per run,
/// 3 cycles per iteration.
pub open spec fn spec_u8_info() -> Cycles {
    Cycles { counter_mask: 0xFF, cycles_per_run: 3, cycles_per_iter: 3, max_cycles: 768 }
}

/// The stage selections the cascade makes for one budget, widest first.
#[derive(Clone, Copy, PartialEq, Eq, Structural, Debug)]
pub struct DelayPlan {
    pub sel32: Selection,
    pub sel24: Selection,
    pub sel16: Selection,
    pub sel8: Selection,
}

impl DelayPlan {
    /// Cycles left after the narrowest stage, resolved by the fixed tail.
    pub open spec fn tail_remainder(self) -> u64 {
        self.sel8.remainder
    }

    /// Cycles the fixed tail consumes: a 2-cycle unit when at least 4 remain,
    /// another when at least 2 remain, and a 1-cycle unit for an odd count.
    pub open spec fn tail_cycles(self) -> int {
        (if self.tail_remainder() >= 4 { 2int } else { 0int })
            + (if self.tail_remainder() >= 2 { 2int } else { 0int })
            + (if self.tail_remainder() % 2 == 1 { 1int } else { 0int })
    }

    /// Cycles the four counter stages consume together.
    pub open spec fn loop_cycles(self) -> int {
        spec_u32_info().stage_cycles(self.sel32) + spec_u24_info().stage_cycles(self.sel24)
            + spec_u16_info().stage_cycles(self.sel16) + spec_u8_info().stage_cycles(self.sel8)
    }

    /// Cycles the whole plan consumes, stages and tail together.
    pub open spec fn total_cycles(self) -> int {
        self.loop_cycles() + self.tail_cycles()
    }

    /// Instructions the selected counter loops take: 8, 6, 4 and 3 for the
    /// 32-, 24-, 16- and 8-bit shapes.
    pub open spec fn loop_instruction_count(self) -> int {
        (if self.sel32.selected { 8int } else { 0int })
            + (if self.sel24.selected { 6int } else { 0int })
            + (if self.sel16.selected { 4int } else { 0int })
            + (if self.sel8.selected { 3int } else { 0int })
    }

    /// Instructions the tail takes: each of its units is one instruction.
    pub open spec fn tail_instruction_count(self) -> int {
        (if self.tail_remainder() >= 4 { 1int } else { 0int })
            + (if self.tail_remainder() >= 2 { 1int } else { 0int })
            + (if self.tail_remainder() % 2 == 1 { 1int } else { 0int })
    }

    /// Instructions the whole plan takes.
    pub open spec fn instruction_count(self) -> int {
        self.loop_instruction_count() + self.tail_instruction_count()
    }
}

/// The one plan the cascade builds for `total`: each stage's selection is the
/// selector's answer for the remainder handed down by the stage above it,
/// under the bypass thresholds that keep the instruction count smallest.
/// Each threshold sits a few cycles above the next narrower stage's capacity,
/// by the worst-case cost of that stage's own remainder handling.
pub open spec fn plan_of(total: u64, p: DelayPlan) -> bool {
    &&& selection_of(spec_u32_info(), total, (spec_u24_info().max_cycles + 4) as u64, p.sel32)
    &&& selection_of(
        spec_u24_info(),
        p.sel32.remainder,
        (spec_u16_info().max_cycles + 5) as u64,
        p.sel24,
    )
    &&& selection_of(
        spec_u16_info(),
        p.sel24.remainder,
        (spec_u8_info().max_cycles + 4) as u64,
        p.sel16,
    )
    &&& selection_of(spec_u8_info(), p.sel16.remainder, 5, p.sel8)
}

/// Exactness of the cascade: a plan built for a budget within the supported
/// ceiling consumes that budget to the cycle, and at most five cycles are
/// left to the tail.
pub proof fn lemma_plan_exact(total: u64, p: DelayPlan)
    requires
        total <= MAX_SUPPORTED_CYCLES,
        plan_of(total, p),
    ensures
        p.total_cycles() == total,
        p.tail_remainder() <= 5,
{
    assert(p.sel32.remainder <= 83_886_086);
    assert(p.sel24.remainder <= 262_150);
    assert(p.sel16.remainder <= 772);
    assert(p.sel8.remainder <= 5);
}

/// The round-trip law, stage by stage: for every selected stage of a plan,
/// the fixed run cost plus the per-iteration cost of the iterations after
/// the first plus the leftover remainder reconstructs exactly the budget
/// that entered that stage.
pub proof fn lemma_stage_round_trip(total: u64, p: DelayPlan)
    requires
        plan_of(total, p),
    ensures
        p.sel32.selected ==> spec_u32_info().stage_cycles(p.sel32) + p.sel32.remainder == total,
        p.sel24.selected ==> spec_u24_info().stage_cycles(p.sel24) + p.sel24.remainder
            == p.sel32.remainder,
        p.sel16.selected ==> spec_u16_info().stage_cycles(p.sel16) + p.sel16.remainder
            == p.sel24.remainder,
        p.sel8.selected ==> spec_u8_info().stage_cycles(p.sel8) + p.sel8.remainder
            == p.sel16.remainder,
{
}

/// A plan for a budget within the ceiling uses at most one counter stage:
/// once any stage is selected, it leaves fewer cycles than any narrower
/// stage's threshold.
pub proof fn lemma_at_most_one_stage(total: u64, p: DelayPlan)
    requires
        total <= MAX_SUPPORTED_CYCLES,
        plan_of(total, p),
    ensures
        (if p.sel32.selected { 1int } else { 0int }) + (if p.sel24.selected { 1int } else { 0int })
            + (if p.sel16.selected { 1int } else { 0int })
            + (if p.sel8.selected { 1int } else { 0int }) <= 1,
{
    lemma_plan_exact(total, p);
}

/// The number of loop instructions a plan built for `total` takes, written
/// directly as a step function of the budget: each counter width serves one
/// contiguous band, delimited by the cascade's bypass thresholds.
pub open spec fn loop_instruction_count_for(total: u64) -> int {
    if total > 83_886_086 {
        8
    } else if total > 262_150 {
        6
    } else if total > 772 {
        4
    } else if total > 5 {
        3
    } else {
        0
    }
}

/// A plan's loop instruction count is exactly the step function of its
/// budget: no budget is served by two different widths.
pub proof fn lemma_loop_instruction_count_characterized(total: u64, p: DelayPlan)
    requires
        total <= MAX_SUPPORTED_CYCLES,
        plan_of(total, p),
    ensures
        p.loop_instruction_count() == loop_instruction_count_for(total),
{
    assert(p.sel32.remainder <= 83_886_086);
    assert(p.sel24.remainder <= 262_150);
    assert(p.sel16.remainder <= 772);
}

/// Monotonicity: over the whole supported range, the count of loop
/// instructions never decreases as the requested cycle count grows.  (The
/// one-instruction tail units do fluctuate with the final remainder, so the
/// law is about the counter loops, which dominate the sequence.)
pub proof fn lemma_loop_instruction_count_monotonic(t1: u64, t2: u64, p1: DelayPlan, p2: DelayPlan)
    requires
        t1 <= t2 <= MAX_SUPPORTED_CYCLES,
        plan_of(t1, p1),
        plan_of(t2, p2),
    ensures
        p1.loop_instruction_count() <= p2.loop_instruction_count(),
{
    lemma_loop_instruction_count_characterized(t1, p1);
    lemma_loop_instruction_count_characterized(t2, p2);
}

/// One emitted element of a delay sequence: a counter loop of one width with
/// its initial counter value, a 2-cycle jump-to-next, or a 1-cycle no-op.
#[derive(Clone, Copy, PartialEq, Eq, Structural, Debug)]
pub enum Unit {
    Loop32 { counter: u64 },
    Loop24 { counter: u64 },
    Loop16 { counter: u64 },
    Loop8 { counter: u64 },
    Jmp2,
    Nop1,
}

impl Unit {
    /// Instructions the unit expands to on the target.
    pub open spec fn instruction_len(self) -> int {
        match self {
            Unit::Loop32 { .. } => 8,
            Unit::Loop24 { .. } => 6,
            Unit::Loop16 { .. } => 4,
            Unit::Loop8 { .. } => 3,
            Unit::Jmp2 => 1,
            Unit::Nop1 => 1,
        }
    }

}

/// Instructions a whole emission expands to, unit by unit.
pub open spec fn units_instruction_sum(s: Seq<Unit>) -> int
    decreases s.len(),
{
    if s.len() == 0 {
        0
    } else {
        s[0].instruction_len() + units_instruction_sum(s.drop_first())
    }
}

/// A one-unit emission sums to that unit's instruction length.
pub proof fn lemma_units_instruction_sum_singleton(u: Unit)
    ensures
        units_instruction_sum(seq![u]) == u.instruction_len(),
{
    reveal_with_fuel(units_instruction_sum, 2);
    assert(seq![u].drop_first() =~= Seq::<Unit>::empty());
}

/// Summing instructions distributes over concatenation of emissions.
pub proof fn lemma_units_instruction_sum_append(a: Seq<Unit>, b: Seq<Unit>)
    ensures
        units_instruction_sum(a + b) == units_instruction_sum(a) + units_instruction_sum(b),
    decreases a.len(),
{
    if a.len() == 0 {
        assert(a + b =~= b);
    } else {
        assert((a + b).drop_first() =~= a.drop_first() + b);
        lemma_units_instruction_sum_append(a.drop_first(), b);
    }
}

impl DelayPlan {
    /// The plan's emission in execution order: the selected counter loops,
    /// widest first, then the fixed remainder tail.
    pub open spec fn spec_units(self) -> Seq<Unit> {
        (if self.sel32.selected {
            seq![Unit::Loop32 { counter: self.sel32.counter }]
        } else {
            Seq::empty()
        }) + (if self.sel24.selected {
            seq![Unit::Loop24 { counter: self.sel24.counter }]
        } else {
            Seq::empty()
        }) + (if self.sel16.selected {
            seq![Unit::Loop16 { counter: self.sel16.counter }]
        } else {
            Seq::empty()
        }) + (if self.sel8.selected {
            seq![Unit::Loop8 { counter: self.sel8.counter }]
        } else {
            Seq::empty()
        }) + (if self.tail_remainder() >= 4 {
            seq![Unit::Jmp2]
        } else {
            Seq::empty()
        }) + (if self.tail_remainder() >= 2 {
            seq![Unit::Jmp2]
        } else {
            Seq::empty()
        }) + (if self.tail_remainder() % 2 == 1 {
            seq![Unit::Nop1]
        } else {
            Seq::empty()
        })
    }

    /// The instructions of a plan's emission, counted unit by unit, are its
    /// instruction count.
    pub proof fn lemma_units_instruction_count(self)
        ensures
            units_instruction_sum(self.spec_units()) == self.instruction_count(),
    {
        let s32 = if self.sel32.selected {
            seq![Unit::Loop32 { counter: self.sel32.counter }]
        } else {
            Seq::<Unit>::empty()
        };
        let s24 = if self.sel24.selected {
            seq![Unit::Loop24 { counter: self.sel24.counter }]
        } else {
            Seq::<Unit>::empty()
        };
        let s16 = if self.sel16.selected {
            seq![Unit::Loop16 { counter: self.sel16.counter }]
        } else {
            Seq::<Unit>::empty()
        };
        let s8 = if self.sel8.selected {
            seq![Unit::Loop8 { counter: self.sel8.counter }]
        } else {
            Seq::<Unit>::empty()
        };
        let t4 = if self.tail_remainder() >= 4 {
            seq![Unit::Jmp2]
        } else {
            Seq::<Unit>::empty()
        };
        let t2 = if self.tail_remainder() >= 2 {
            seq![Unit::Jmp2]
        } else {
            Seq::<Unit>::empty()
        };
        let t1 = if self.tail_remainder() % 2 == 1 {
            seq![Unit::Nop1]
        } else {
            Seq::<Unit>::empty()
        };
        lemma_units_instruction_sum_singleton(Unit::Loop32 { counter: self.sel32.counter });
        lemma_units_instruction_sum_singleton(Unit::Loop24 { counter: self.sel24.counter });
        lemma_units_instruction_sum_singleton(Unit::Loop16 { counter: self.sel16.counter });
        lemma_units_instruction_sum_singleton(Unit::Loop8 { counter: self.sel8.counter });
        lemma_units_instruction_sum_singleton(Unit::Jmp2);
        lemma_units_instruction_sum_singleton(Unit::Nop1);
        lemma_units_instruction_sum_append(s32 + s24 + s16 + s8 + t4 + t2, t1);
        lemma_units_instruction_sum_append(s32 + s24 + s16 + s8 + t4, t2);
        lemma_units_instruction_sum_append(s32 + s24 + s16 + s8, t4);
        lemma_units_instruction_sum_append(s32 + s24 + s16, s8);
        lemma_units_instruction_sum_append(s32 + s24, s16);
        lemma_units_instruction_sum_append(s32, s24);
        assert(self.spec_units() == s32 + s24 + s16 + s8 + t4 + t2 + t1);
    }

    /// Emits the plan's units in execution order.
    #[verifier::rlimit(30)]
    pub fn units(&self) -> (r: Vec<Unit>)
        ensures
            r@ == self.spec_units(),
    {
        let mut v: Vec<Unit> = Vec::new();
        if self.sel32.selected {
            v.push(Unit::Loop32 { counter: self.sel32.counter });
        }
        if self.sel24.selected {
            v.push(Unit::Loop24 { counter: self.sel24.counter });
        }
        if self.sel16.selected {
            v.push(Unit::Loop16 { counter: self.sel16.counter });
        }
        if self.sel8.selected {
            v.push(Unit::Loop8 { counter: self.sel8.counter });
        }
        if self.sel8.remainder >= 4 {
            v.push(Unit::Jmp2);
        }
        if self.sel8.remainder >= 2 {
            v.push(Unit::Jmp2);
        }
        if self.sel8.remainder % 2 == 1 {
            v.push(Unit::Nop1);
        }
        proof {
            assert(v@ =~= self.spec_units());
        }
        v
    }

    /// Counts the instructions of the whole emission.
    pub fn emitted_instruction_count(&self) -> (n: u64)
        ensures
            n == self.instruction_count(),
    {
        let mut n: u64 = 0;
        if self.sel32.selected {
            n = n + 8;
        }
        if self.sel24.selected {
            n = n + 6;
        }
        if self.sel16.selected {
            n = n + 4;
        }
        if self.sel8.selected {
            n = n + 3;
        }
        if self.sel8.remainder >= 4 {
            n = n + 1;
        }
        if self.sel8.remainder >= 2 {
            n = n + 1;
        }
        if self.sel8.remainder % 2 == 1 {
            n = n + 1;
        }
        n
    }
}

/// Requests a delay of `cycles * mul / div` clock cycles, the ratio giving
/// unit conversions an exact multiply-before-divide form.
#[derive(Clone, Copy, PartialEq, Eq, Structural, Debug)]
pub struct Delayer {
    pub cycles: u64,
    pub mul: u64,
    pub div: u64,
}

impl Delayer {
    /// The requested cycle count: the full product taken before the division,
    /// so no precision is lost to early truncation.
    pub open spec fn spec_total_cycles(self) -> int {
        (self.cycles * self.mul) / (self.div as int)
    }

    /// Computes the requested cycle count with arithmetic widened past any
    /// overflow, and rejects counts beyond the supported ceiling.
    ///
    /// Counts between the ceiling and the combined capacity of all four
    /// stages (`25_853_952_779`) could in principle be served by chaining
    /// stages at a much higher instruction cost; they are refused here like
    /// everything above them, and the widened arithmetic leaves no path on
    /// which an oversized request could wrap around into a shorter delay.
    pub fn total_cycles(&self) -> (r: Option<u64>)
        requires
            self.div > 0,
        ensures
            (r is Some) <==> self.spec_total_cycles() <= MAX_SUPPORTED_CYCLES,
            r is Some ==> r->0 == self.spec_total_cycles(),
    {
        proof {
            assert((self.cycles as int) * (self.mul as int) <= (u64::MAX as int) * (
            u64::MAX as int)) by (nonlinear_arith)
                requires
                    self.cycles <= u64::MAX,
                    self.mul <= u64::MAX,
            ;
        }
        let product: u128 = (self.cycles as u128) * (self.mul as u128);
        let total: u128 = product / (self.div as u128);
        if total <= MAX_SUPPORTED_CYCLES as u128 {
            Some(total as u64)
        } else {
            None
        }
    }

    /// Runs the whole pipeline: validates the requested cycle count, then
    /// lets each counter width, widest first, take its share of the budget.
    /// A returned plan consumes the requested count exactly; a request past
    /// the supported ceiling is refused, never truncated.
    pub fn delay_impl(&self) -> (r: Option<DelayPlan>)
        requires
            self.div > 0,
        ensures
            (r is Some) <==> self.spec_total_cycles() <= MAX_SUPPORTED_CYCLES,
            r is Some ==> plan_of(self.spec_total_cycles() as u64, r->0),
            r is Some ==> (r->0).total_cycles() == self.spec_total_cycles(),
            r is Some ==> (r->0).tail_remainder() <= 5,
            r is Some ==> (r->0).instruction_count() <= 11,
    {
        let total_opt = self.total_cycles();
        match total_opt {
            None => None,
            Some(total) => {
                let u32_info = cycles(0xFFFF_FFFF, 9, 6);
                let u24_info = cycles(0xFF_FFFF, 7, 5);
                let u16_info = cycles(0xFFFF, 5, 4);
                let u8_info = cycles(0xFF, 3, 3);
                let sel32 = select(u32_info, total, u24_info.max_cycles + 4);
                let sel24 = select(u24_info, sel32.remainder, u16_info.max_cycles + 5);
                let sel16 = select(u16_info, sel24.remainder, u8_info.max_cycles + 4);
                let sel8 = select(u8_info, sel16.remainder, 5);
                let plan = DelayPlan { sel32, sel24, sel16, sel8 };
                proof {
                    assert(u32_info == spec_u32_info());
                    assert(u24_info == spec_u24_info());
                    assert(u16_info == spec_u16_info());
                    assert(u8_info == spec_u8_info());
                    lemma_plan_exact(total, plan);
                    lemma_at_most_one_stage(total, plan);
                }
                Some(plan)
            },
        }
    }
}

} // verus!
