use avr_delay::delay_cycles::{cycles, select, Delayer, Unit};

fn plan_units(total: u64) -> Vec<Unit> {
    let d = Delayer { cycles: total, mul: 1, div: 1 };
    d.delay_impl().expect("budget within the ceiling").units()
}

fn loop_count(units: &[Unit]) -> u32 {
    units
        .iter()
        .filter(|u| {
            matches!(
                u,
                Unit::Loop32 { .. } | Unit::Loop24 { .. } | Unit::Loop16 { .. } | Unit::Loop8 { .. }
            )
        })
        .count() as u32
}

#[test]
fn it_works() {
    assert_eq!(2 + 2, 4);
}

#[test]
fn zero_cycles_emits_nothing() {
    assert_eq!(plan_units(0), vec![]);
}

#[test]
fn one_cycle_is_a_single_nop() {
    assert_eq!(plan_units(1), vec![Unit::Nop1]);
}

#[test]
fn small_budgets_use_only_tail_units() {
    assert_eq!(plan_units(2), vec![Unit::Jmp2]);
    assert_eq!(plan_units(3), vec![Unit::Jmp2, Unit::Nop1]);
    assert_eq!(plan_units(4), vec![Unit::Jmp2, Unit::Jmp2]);
    assert_eq!(plan_units(5), vec![Unit::Jmp2, Unit::Jmp2, Unit::Nop1]);
    for total in 2..=5u64 {
        assert_eq!(loop_count(&plan_units(total)), 0);
    }
}

#[test]
fn six_cycles_starts_the_8_bit_stage() {
    assert_eq!(plan_units(6), vec![Unit::Loop8 { counter: 2 }]);
}

#[test]
fn eight_bit_capacity_boundary() {
    assert_eq!(plan_units(767), vec![Unit::Loop8 { counter: 255 }, Unit::Jmp2]);
    // 768 is the full wrap: counter 0 stands for 256 iterations.
    assert_eq!(plan_units(768), vec![Unit::Loop8 { counter: 0 }]);
    // The threshold of the 16-bit stage sits 4 above the 8-bit capacity, so
    // small overshoots are absorbed by the wrapped 8-bit counter plus tail.
    assert_eq!(plan_units(769), vec![Unit::Loop8 { counter: 0 }, Unit::Nop1]);
    assert_eq!(plan_units(772), vec![Unit::Loop8 { counter: 0 }, Unit::Jmp2, Unit::Jmp2]);
    // One past the threshold the 16-bit stage takes over, with no remainder.
    assert_eq!(plan_units(773), vec![Unit::Loop16 { counter: 193 }]);
}

#[test]
fn sixteen_bit_capacity_boundary() {
    assert_eq!(
        plan_units(262_144),
        vec![Unit::Loop16 { counter: 65_535 }, Unit::Jmp2, Unit::Nop1]
    );
    assert_eq!(plan_units(262_145), vec![Unit::Loop16 { counter: 0 }]);
    // Overshoots up to the 24-bit threshold stay with the wrapped 16-bit stage.
    assert_eq!(plan_units(262_146), vec![Unit::Loop16 { counter: 0 }, Unit::Nop1]);
    assert_eq!(
        plan_units(262_150),
        vec![Unit::Loop16 { counter: 0 }, Unit::Jmp2, Unit::Jmp2, Unit::Nop1]
    );
    assert_eq!(
        plan_units(262_151),
        vec![Unit::Loop24 { counter: 52_429 }, Unit::Jmp2, Unit::Jmp2]
    );
}

#[test]
fn twenty_four_bit_capacity_boundary() {
    assert_eq!(
        plan_units(83_886_081),
        vec![Unit::Loop24 { counter: 16_777_215 }, Unit::Jmp2, Unit::Jmp2]
    );
    assert_eq!(plan_units(83_886_082), vec![Unit::Loop24 { counter: 0 }]);
    // Overshoots up to the 32-bit threshold stay with the wrapped 24-bit stage.
    assert_eq!(plan_units(83_886_083), vec![Unit::Loop24 { counter: 0 }, Unit::Nop1]);
    assert_eq!(
        plan_units(83_886_086),
        vec![Unit::Loop24 { counter: 0 }, Unit::Jmp2, Unit::Jmp2]
    );
    assert_eq!(plan_units(83_886_087), vec![Unit::Loop32 { counter: 13_981_014 }]);
}

#[test]
fn thirty_two_bit_top_of_range() {
    assert_eq!(
        plan_units(25_769_803_778),
        vec![Unit::Loop32 { counter: 4_294_967_295 }, Unit::Jmp2, Unit::Jmp2, Unit::Nop1]
    );
    assert_eq!(plan_units(25_769_803_779), vec![Unit::Loop32 { counter: 0 }]);
    for total in 25_769_803_780..=25_769_803_784u64 {
        let units = plan_units(total);
        assert_eq!(units[0], Unit::Loop32 { counter: 0 });
        assert_eq!(loop_count(&units), 1);
    }
    assert_eq!(
        plan_units(25_769_803_784),
        vec![Unit::Loop32 { counter: 0 }, Unit::Jmp2, Unit::Jmp2, Unit::Nop1]
    );
}

#[test]
fn past_the_ceiling_is_rejected() {
    let d = Delayer { cycles: 25_769_803_785, mul: 1, div: 1 };
    assert!(d.delay_impl().is_none());
    assert!(d.total_cycles().is_none());
}

#[test]
fn combinatorial_band_is_rejected_not_wrapped() {
    // Budgets between the ceiling and the sum of all four stage maxima could
    // in principle be served by chaining stages; the validator refuses them
    // outright rather than risking wrapped arithmetic.
    let absolute_limit = Delayer { cycles: 25_853_952_779, mul: 1, div: 1 };
    assert!(absolute_limit.delay_impl().is_none());
    let past_it = Delayer { cycles: 25_853_952_780, mul: 1, div: 1 };
    assert!(past_it.delay_impl().is_none());
}

#[test]
fn round_trip_of_a_selected_stage() {
    let info = cycles(0xFF, 3, 3);
    let s = select(info, 100, 5);
    assert!(s.selected);
    assert_eq!(s.counter, 33);
    assert_eq!(s.remainder, 1);
    // Reconstructing the budget from the selection gives it back exactly.
    assert_eq!(3 + 3 * (s.counter - 1) + s.remainder, 100);
}

#[test]
fn bypassed_stage_hands_the_budget_through() {
    let info = cycles(0xFFFF, 5, 4);
    let s = select(info, 600, 772);
    assert!(!s.selected);
    assert_eq!(s.counter, 0);
    assert_eq!(s.remainder, 600);
}

#[test]
fn loop_instruction_count_steps_up_across_bands() {
    let edges: [u64; 10] = [0, 5, 6, 772, 773, 262_150, 262_151, 83_886_086, 83_886_087,
        25_769_803_784];
    let expected: [u32; 10] = [0, 0, 1, 1, 1, 1, 1, 1, 1, 1];
    let mut last_instructions: u64 = 0;
    for (i, total) in edges.iter().enumerate() {
        let units = plan_units(*total);
        assert_eq!(loop_count(&units), expected[i]);
        let d = Delayer { cycles: *total, mul: 1, div: 1 };
        let plan = d.delay_impl().unwrap();
        let n = plan.emitted_instruction_count();
        assert!(n <= 11);
        let loop_instructions: u64 = match units.first() {
            Some(Unit::Loop32 { .. }) => 8,
            Some(Unit::Loop24 { .. }) => 6,
            Some(Unit::Loop16 { .. }) => 4,
            Some(Unit::Loop8 { .. }) => 3,
            _ => 0,
        };
        assert!(loop_instructions >= last_instructions);
        last_instructions = loop_instructions;
    }
}

#[test]
fn ratio_multiplies_before_dividing() {
    // 10 * 3 / 4 must be 7, not 6 (divide-first) nor 0.
    let d = Delayer { cycles: 10, mul: 3, div: 4 };
    assert_eq!(plan_units(7), d.delay_impl().unwrap().units());
    assert_eq!(plan_units(7), vec![Unit::Loop8 { counter: 2 }, Unit::Nop1]);
}

#[test]
fn huge_products_do_not_overflow_the_validator() {
    let d = Delayer { cycles: u64::MAX, mul: u64::MAX, div: 1 };
    assert!(d.delay_impl().is_none());
    let e = Delayer { cycles: 25_769_803_784, mul: u64::MAX, div: u64::MAX };
    assert_eq!(e.delay_impl().unwrap().units(), plan_units(25_769_803_784));
}
