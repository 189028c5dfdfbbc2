use monty::power::compute_power;

#[test]
fn power_computation_example() {
    // delta 1530 -> 1530 * 10 / 153 = 100 energy units scaled -> 100 / 100 ms = 1 W
    assert_eq!(compute_power(1000, 2530, 100), 1);
}

#[test]
fn zero_elapsed_substitutes_divisor_one() {
    // delta 153 -> 10 scaled; divided by the substituted 1, not by 0
    assert_eq!(compute_power(0, 153, 0), 10);
    assert_eq!(compute_power(1000, 2530, 0), 100);
}

#[test]
fn zero_delta_is_zero_watts() {
    assert_eq!(compute_power(5, 5, 100), 0);
}

#[test]
fn scaling_truncates_at_each_division() {
    // delta 1_530_000 -> 100_000 scaled -> / 1000 ms = 100 W
    assert_eq!(compute_power(0, 1_530_000, 1000), 100);
    // delta 200 -> 2000 / 153 = 13 (truncated) -> / 7 ms = 1 (truncated)
    assert_eq!(compute_power(0, 200, 7), 1);
}
