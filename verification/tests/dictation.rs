use hyprwhisper::dictation::{plan_final_pass, plan_partial_pass, Pass, MIN_PARTIAL_SAMPLES};

#[test]
fn the_minimum_for_a_preview_is_half_a_second() {
    assert_eq!(MIN_PARTIAL_SAMPLES, 8000);
}

#[test]
fn an_empty_recording_is_never_transcribed() {
    assert_eq!(plan_final_pass(0, true), Pass::Skip);
    assert_eq!(plan_final_pass(0, false), Pass::Skip);
    assert_eq!(plan_partial_pass(0, true), Pass::Skip);
    assert_eq!(plan_partial_pass(0, false), Pass::Skip);
}

#[test]
fn the_final_pass_runs_on_any_samples_with_a_model() {
    assert_eq!(plan_final_pass(1, true), Pass::Run);
    assert_eq!(plan_final_pass(7999, true), Pass::Run);
    assert_eq!(plan_final_pass(usize::MAX, true), Pass::Run);
    assert_eq!(plan_final_pass(1, false), Pass::Refuse);
    assert_eq!(plan_final_pass(32000, false), Pass::Refuse);
}

#[test]
fn a_preview_needs_the_minimum_and_a_model() {
    assert_eq!(plan_partial_pass(7999, true), Pass::Skip);
    assert_eq!(plan_partial_pass(7999, false), Pass::Skip);
    assert_eq!(plan_partial_pass(8000, true), Pass::Run);
    assert_eq!(plan_partial_pass(8000, false), Pass::Refuse);
    assert_eq!(plan_partial_pass(8001, true), Pass::Run);
    assert_eq!(plan_partial_pass(usize::MAX, false), Pass::Refuse);
}
