use tmuxify::{build_document, plan_after_probe, Doc, Op, SplitDir};

fn text(s: &str) -> Doc {
    Doc::Text(s.to_string())
}

fn entry(k: &str, v: Doc) -> (Doc, Doc) {
    (text(k), v)
}

fn doc_with_windows(name: &str, windows: Vec<Doc>) -> Doc {
    Doc::Mapping(vec![entry("name", text(name)), entry("windows", Doc::List(windows))])
}

fn named_window(title: &str, body: Doc) -> Doc {
    Doc::Mapping(vec![(text(title), body)])
}

fn layout_body(layout: Option<&str>, panes: Vec<Doc>) -> Doc {
    let mut entries = Vec::new();
    if let Some(l) = layout {
        entries.push(entry("layout", text(l)));
    }
    entries.push(entry("panes", Doc::List(panes)));
    Doc::Mapping(entries)
}

fn count_new_windows(ops: &[Op]) -> usize {
    ops.iter().filter(|o| matches!(o, Op::NewWindow(_))).count()
}

fn count_splits(ops: &[Op]) -> usize {
    ops.iter().filter(|o| matches!(o, Op::SplitWindow(_, _))).count()
}

#[test]
fn scenario_single_window() {
    let d = build_document(&doc_with_windows("dev", vec![text("ls")]));
    assert_eq!(d.name, "dev".to_string());
    let ops = plan_after_probe(&d, false);
    assert_eq!(
        ops,
        vec![
            Op::CreateSession("dev".to_string()),
            Op::SendKeys("dev:0.0".to_string(), "ls".to_string()),
            Op::AttachSession("dev".to_string()),
        ]
    );
}

#[test]
fn scenario_named_and_layout_windows() {
    let d = build_document(&doc_with_windows(
        "dev",
        vec![
            named_window("editor", text("vim")),
            named_window(
                "server",
                layout_body(Some("main-vertical"), vec![text("npm start"), text("npm test")]),
            ),
        ],
    ));
    let ops = plan_after_probe(&d, false);
    assert_eq!(
        ops,
        vec![
            Op::CreateSession("dev".to_string()),
            Op::RenameWindow("dev".to_string(), "editor".to_string()),
            Op::SendKeys("dev:0.0".to_string(), "vim".to_string()),
            Op::NewWindow("dev".to_string()),
            Op::RenameWindow("dev".to_string(), "server".to_string()),
            Op::SplitWindow("dev".to_string(), SplitDir::Vertical),
            Op::SendKeys("dev:1.0".to_string(), "npm start".to_string()),
            Op::SendKeys("dev:1.1".to_string(), "npm test".to_string()),
            Op::AttachSession("dev".to_string()),
        ]
    );
}

#[test]
fn scenario_already_running_attaches_only() {
    let d = build_document(&doc_with_windows("dev", vec![text("ls"), text("top")]));
    let ops = plan_after_probe(&d, true);
    assert_eq!(ops, Vec::<Op>::new());
}

#[test]
fn first_window_gets_no_new_window() {
    let d = build_document(&doc_with_windows("s", vec![text("a"), text("b"), text("c")]));
    let ops = plan_after_probe(&d, false);
    assert_eq!(count_new_windows(&ops), 2);
    // The first operation after the creation addresses window 0 directly.
    assert_eq!(ops[1], Op::SendKeys("s:0.0".to_string(), "a".to_string()));
}

#[test]
fn main_horizontal_yields_one_default_split() {
    let d = build_document(&doc_with_windows(
        "s",
        vec![named_window("w", layout_body(Some("main-horizontal"), vec![text("a"), text("b")]))],
    ));
    let ops = plan_after_probe(&d, false);
    assert_eq!(count_splits(&ops), 1);
    assert_eq!(ops[2], Op::SplitWindow("s".to_string(), SplitDir::Horizontal));
    // The split comes before every send-keys of the window.
    assert_eq!(ops[3], Op::SendKeys("s:0.0".to_string(), "a".to_string()));
    assert_eq!(ops[4], Op::SendKeys("s:0.1".to_string(), "b".to_string()));
}

#[test]
fn unrecognised_layout_yields_no_split() {
    let d = build_document(&doc_with_windows(
        "s",
        vec![named_window("w", layout_body(Some("tiled"), vec![text("a"), text("b")]))],
    ));
    let ops = plan_after_probe(&d, false);
    assert_eq!(count_splits(&ops), 0);
    // Pane commands are still sent to sequential pane indices.
    assert_eq!(ops[2], Op::SendKeys("s:0.0".to_string(), "a".to_string()));
    assert_eq!(ops[3], Op::SendKeys("s:0.1".to_string(), "b".to_string()));
}

#[test]
fn absent_layout_yields_no_split() {
    let d = build_document(&doc_with_windows(
        "s",
        vec![named_window("w", layout_body(None, vec![text("a")]))],
    ));
    let ops = plan_after_probe(&d, false);
    assert_eq!(count_splits(&ops), 0);
}

#[test]
fn one_split_even_with_three_panes() {
    let d = build_document(&doc_with_windows(
        "s",
        vec![named_window(
            "w",
            layout_body(Some("main-vertical"), vec![text("a"), text("b"), text("c")]),
        )],
    ));
    let ops = plan_after_probe(&d, false);
    assert_eq!(count_splits(&ops), 1);
    assert_eq!(ops[3], Op::SendKeys("s:0.0".to_string(), "a".to_string()));
    assert_eq!(ops[4], Op::SendKeys("s:0.1".to_string(), "b".to_string()));
    assert_eq!(ops[5], Op::SendKeys("s:0.2".to_string(), "c".to_string()));
}

#[test]
fn rename_precedes_split_and_send_keys() {
    let d = build_document(&doc_with_windows(
        "s",
        vec![named_window("w", layout_body(Some("main-vertical"), vec![text("a")]))],
    ));
    let ops = plan_after_probe(&d, false);
    let rename_at = ops
        .iter()
        .position(|o| matches!(o, Op::RenameWindow(_, _)))
        .expect("a rename is issued");
    for (i, o) in ops.iter().enumerate() {
        if matches!(o, Op::SplitWindow(_, _) | Op::SendKeys(_, _)) {
            assert!(rename_at < i);
        }
    }
}

#[test]
fn windows_of_wrong_shape_degrade_to_none() {
    let d = build_document(&Doc::Mapping(vec![
        entry("name", text("dev")),
        entry("windows", text("oops")),
    ]));
    let ops = plan_after_probe(&d, false);
    assert_eq!(
        ops,
        vec![Op::CreateSession("dev".to_string()), Op::AttachSession("dev".to_string())]
    );
}

#[test]
fn missing_name_defaults() {
    let d = build_document(&Doc::Mapping(vec![entry("windows", Doc::List(vec![text("ls")]))]));
    assert_eq!(d.name, "default".to_string());
}

#[test]
fn non_string_name_defaults() {
    let d = build_document(&Doc::Mapping(vec![
        entry("name", Doc::Other),
        entry("windows", Doc::List(vec![text("ls")])),
    ]));
    assert_eq!(d.name, "default".to_string());
}

#[test]
fn non_mapping_root_defaults_to_empty_session() {
    let d = build_document(&text("just a string"));
    assert_eq!(d.name, "default".to_string());
    let ops = plan_after_probe(&d, false);
    assert_eq!(
        ops,
        vec![
            Op::CreateSession("default".to_string()),
            Op::AttachSession("default".to_string()),
        ]
    );
}

#[test]
fn empty_title_falls_back_to_shell() {
    let d = build_document(&doc_with_windows("s", vec![named_window("", text("vim"))]));
    let ops = plan_after_probe(&d, false);
    assert_eq!(ops[1], Op::RenameWindow("s".to_string(), "shell".to_string()));
}

#[test]
fn non_string_title_falls_back_to_shell() {
    let w = Doc::Mapping(vec![(Doc::Other, text("vim"))]);
    let d = build_document(&doc_with_windows("s", vec![w]));
    let ops = plan_after_probe(&d, false);
    assert_eq!(ops[1], Op::RenameWindow("s".to_string(), "shell".to_string()));
}

#[test]
fn non_string_pane_entries_are_skipped() {
    let d = build_document(&doc_with_windows(
        "s",
        vec![named_window("w", layout_body(None, vec![text("ls"), Doc::Other, text("pwd")]))],
    ));
    let ops = plan_after_probe(&d, false);
    assert_eq!(ops[2], Op::SendKeys("s:0.0".to_string(), "ls".to_string()));
    assert_eq!(ops[3], Op::SendKeys("s:0.1".to_string(), "pwd".to_string()));
}

#[test]
fn unrecognised_window_entries_are_skipped() {
    let d = build_document(&doc_with_windows("s", vec![Doc::Other, text("ls")]));
    let ops = plan_after_probe(&d, false);
    assert_eq!(count_new_windows(&ops), 0);
    assert_eq!(ops[1], Op::SendKeys("s:0.0".to_string(), "ls".to_string()));
}

#[test]
fn empty_mapping_window_is_skipped() {
    let d = build_document(&doc_with_windows("s", vec![Doc::Mapping(vec![]), text("ls")]));
    let ops = plan_after_probe(&d, false);
    assert_eq!(count_new_windows(&ops), 0);
    assert_eq!(ops[1], Op::SendKeys("s:0.0".to_string(), "ls".to_string()));
}

#[test]
fn wrong_shape_window_body_renames_only() {
    let d = build_document(&doc_with_windows(
        "s",
        vec![named_window("w", Doc::List(vec![text("x")]))],
    ));
    let ops = plan_after_probe(&d, false);
    assert_eq!(
        ops,
        vec![
            Op::CreateSession("s".to_string()),
            Op::RenameWindow("s".to_string(), "w".to_string()),
            Op::AttachSession("s".to_string()),
        ]
    );
}

#[test]
fn empty_command_is_still_sent() {
    let d = build_document(&doc_with_windows("s", vec![text("")]));
    let ops = plan_after_probe(&d, false);
    assert_eq!(ops[1], Op::SendKeys("s:0.0".to_string(), "".to_string()));
}
