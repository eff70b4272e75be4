use sefenbu::controls::{change_param, step, ColorParam, ParamInput, ParamOutcome};
use sefenbu::providers::generic::Provider;
use sefenbu::providers::hsl::HslProvider;
use sefenbu::providers::okhsv::OkhsvProvider;

fn idle() -> ParamInput {
    ParamInput { ready: true, click: None, shift: false, down: false, up: false }
}

fn fresh() -> OkhsvProvider {
    let mut p = OkhsvProvider::new();
    p.clear_changed();
    p
}

const HUE_STEP: ColorParam = ColorParam { delta: 2_000 };

#[test]
fn a_step_is_ten_times_as_long_with_shift() {
    assert_eq!(step(2_000, false), 2_000);
    assert_eq!(step(2_000, true), 20_000);
    assert_eq!(step(-3, true), -30);
    assert_eq!(step(i64::MAX, false), i64::MAX);
    assert_eq!(step(i64::MAX, true), i64::MAX);
    assert_eq!(step(i64::MIN, true), i64::MIN);
    assert_eq!(step(i64::MAX / 10, true), i64::MAX - 7);
    assert_eq!(step(i64::MAX / 10 + 1, true), i64::MAX);
}

#[test]
fn nothing_happens_until_the_caller_is_ready() {
    let mut p = fresh();
    let input = ParamInput { ready: false, click: Some(500), shift: true, down: true, up: true };
    let out = change_param(&mut p, &HUE_STEP, &input);
    assert_eq!(out, ParamOutcome { restart_cooldown: false, redraw: false });
    assert_eq!(p.current(), 360_000);
    assert!(!p.is_changed());

    let mut q = OkhsvProvider::new();
    let out = change_param(&mut q, &HUE_STEP, &input);
    assert_eq!(out, ParamOutcome { restart_cooldown: false, redraw: false });
    assert!(q.is_changed());
}

#[test]
fn without_input_the_slice_stays() {
    let mut p = fresh();
    let out = change_param(&mut p, &HUE_STEP, &idle());
    assert_eq!(out, ParamOutcome { restart_cooldown: false, redraw: false });
    assert_eq!(p.current(), 360_000);
    assert!(!p.is_changed());
}

#[test]
fn a_new_provider_asks_for_a_redraw() {
    let mut p = OkhsvProvider::new();
    let out = change_param(&mut p, &HUE_STEP, &idle());
    assert_eq!(out, ParamOutcome { restart_cooldown: false, redraw: true });
    assert_eq!(p.current(), 360_000);
}

#[test]
fn the_down_key_moves_the_slice_one_step_down() {
    let mut p = fresh();
    let out = change_param(&mut p, &HUE_STEP, &ParamInput { down: true, ..idle() });
    assert_eq!(out, ParamOutcome { restart_cooldown: true, redraw: true });
    assert_eq!(p.current(), 358_000);
    assert!(p.is_changed());
}

#[test]
fn the_up_key_moves_the_slice_one_step_up() {
    let mut p = fresh();
    p.decr(100_000);
    p.clear_changed();
    let out = change_param(&mut p, &HUE_STEP, &ParamInput { up: true, ..idle() });
    assert_eq!(out, ParamOutcome { restart_cooldown: true, redraw: true });
    assert_eq!(p.current(), 262_000);
}

#[test]
fn the_up_key_at_the_bound_still_asks_for_a_redraw() {
    let mut p = fresh();
    let out = change_param(&mut p, &HUE_STEP, &ParamInput { up: true, ..idle() });
    assert_eq!(out, ParamOutcome { restart_cooldown: true, redraw: true });
    assert_eq!(p.current(), 360_000);
}

#[test]
fn the_down_key_wins_over_the_up_key() {
    let mut p = fresh();
    let out = change_param(&mut p, &HUE_STEP, &ParamInput { down: true, up: true, ..idle() });
    assert_eq!(out.restart_cooldown, true);
    assert_eq!(p.current(), 358_000);
}

#[test]
fn shift_makes_the_keys_step_ten_times_as_far() {
    let mut p = fresh();
    change_param(&mut p, &HUE_STEP, &ParamInput { down: true, shift: true, ..idle() });
    assert_eq!(p.current(), 340_000);
    change_param(&mut p, &HUE_STEP, &ParamInput { up: true, shift: true, ..idle() });
    assert_eq!(p.current(), 360_000);
    let mut q = HslProvider::new();
    change_param(&mut q, &ColorParam { delta: 1_000 }, &ParamInput { down: true, shift: true, ..idle() });
    assert_eq!(q.current(), 90_000);
}

#[test]
fn a_click_sets_the_slice_without_restarting_the_wait() {
    let mut p = fresh();
    let out = change_param(&mut p, &HUE_STEP, &ParamInput { click: Some(500), ..idle() });
    assert_eq!(out, ParamOutcome { restart_cooldown: false, redraw: true });
    assert_eq!(p.current(), 180_000);
}

#[test]
fn a_click_comes_before_the_keys() {
    let mut p = fresh();
    let out = change_param(&mut p, &HUE_STEP, &ParamInput { click: Some(500), down: true, ..idle() });
    assert_eq!(out, ParamOutcome { restart_cooldown: true, redraw: true });
    assert_eq!(p.current(), 178_000);
    let out = change_param(&mut p, &HUE_STEP, &ParamInput { click: Some(0), down: true, ..idle() });
    assert_eq!(out, ParamOutcome { restart_cooldown: true, redraw: true });
    assert_eq!(p.current(), 0);
}
