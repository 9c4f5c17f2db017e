use csuperlu::sp_ienv::{get_tuning_params, set_tuning_params, TuningParams, TuningState};

fn custom() -> TuningParams {
    TuningParams {
        panel_size: 8,
        relaxation_param: 4,
        max_supernode_size: 64,
        min_row_2d_block: 32,
        min_col_2d_block: 16,
        estimated_fills: 12,
        max_ilu_supernode_size: 6,
    }
}

#[test]
fn defaults_are_the_library_values() {
    let p = TuningParams::new();
    assert_eq!(p.panel_size, 20);
    assert_eq!(p.relaxation_param, 10);
    assert_eq!(p.max_supernode_size, 200);
    assert_eq!(p.min_row_2d_block, 200);
    assert_eq!(p.min_col_2d_block, 100);
    assert_eq!(p.estimated_fills, 30);
    assert_eq!(p.max_ilu_supernode_size, 10);
}

#[test]
fn sp_ienv_answers_each_index() {
    let p = TuningParams::new();
    let got: Vec<i32> = (1..=7).map(|i| p.sp_ienv(i)).collect();
    assert_eq!(got, vec![20, 10, 200, 200, 100, 30, 10]);
    let c = custom();
    let got: Vec<i32> = (1..=7).map(|i| c.sp_ienv(i)).collect();
    assert_eq!(got, vec![8, 4, 64, 32, 16, 12, 6]);
}

#[test]
fn fresh_state_holds_defaults() {
    let s = TuningState::new();
    assert!(!s.overridden());
    assert_eq!(get_tuning_params(&s), TuningParams::new());
}

#[test]
fn set_then_get_returns_the_set_values() {
    let mut s = TuningState::new();
    set_tuning_params(&mut s, custom());
    assert!(s.overridden());
    assert_eq!(get_tuning_params(&s), custom());
    assert_eq!(get_tuning_params(&s).sp_ienv(1), 8);
}

#[test]
fn repeated_gets_agree() {
    let mut s = TuningState::new();
    assert_eq!(get_tuning_params(&s), get_tuning_params(&s));
    set_tuning_params(&mut s, custom());
    let first = get_tuning_params(&s);
    let second = get_tuning_params(&s);
    assert_eq!(first, second);
}

#[test]
fn setting_defaults_still_counts_as_override() {
    let mut s = TuningState::new();
    set_tuning_params(&mut s, TuningParams::new());
    assert!(s.overridden());
    assert_eq!(get_tuning_params(&s), TuningParams::new());
}

#[test]
fn value_answers_each_index() {
    let c = custom();
    let got: Vec<usize> = (1..=7).map(|i| c.value(i)).collect();
    assert_eq!(got, vec![8, 4, 64, 32, 16, 12, 6]);
}
