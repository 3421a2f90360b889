use tmuxify::pane_target;

#[test]
fn target_for_first_pane() {
    assert_eq!(pane_target(&"dev".to_string(), 0, 0), "dev:0.0".to_string());
}

#[test]
fn target_for_later_window_and_pane() {
    assert_eq!(pane_target(&"dev".to_string(), 1, 2), "dev:1.2".to_string());
}

#[test]
fn target_with_multi_digit_indices() {
    assert_eq!(pane_target(&"s".to_string(), 12, 345), "s:12.345".to_string());
}

#[test]
fn target_with_round_indices() {
    assert_eq!(pane_target(&"s".to_string(), 10, 100), "s:10.100".to_string());
}

#[test]
fn target_with_empty_session_name() {
    assert_eq!(pane_target(&"".to_string(), 3, 4), ":3.4".to_string());
}
