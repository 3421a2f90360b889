use tmuxify::{build_document, plan_after_probe, parse_document, resolve_session, Doc, Op, SplitDir};

fn plan_from_yaml(yaml: &str) -> Vec<Op> {
    let doc = parse_document(yaml).expect("the document parses");
    let model = build_document(&doc);
    plan_after_probe(&model, false)
}

#[test]
fn yaml_full_pipeline() {
    let yaml = "name: dev\nwindows:\n  - editor: vim\n  - server:\n      layout: main-vertical\n      panes:\n        - npm start\n        - npm test\n";
    let ops = plan_from_yaml(yaml);
    assert_eq!(
        ops,
        vec![
            Op::CreateSession("dev".to_string()),
            Op::RenameWindow("dev".to_string(), "editor".to_string()),
            Op::SendKeys("dev:0.0".to_string(), "vim".to_string()),
            Op::NewWindow("dev".to_string()),
            Op::RenameWindow("dev".to_string(), "server".to_string()),
            Op::SplitWindow("dev".to_string(), SplitDir::Vertical),
            Op::SendKeys("dev:1.0".to_string(), "npm start".to_string()),
            Op::SendKeys("dev:1.1".to_string(), "npm test".to_string()),
            Op::AttachSession("dev".to_string()),
        ]
    );
}

#[test]
fn yaml_simple_window_list() {
    let ops = plan_from_yaml("name: dev\nwindows:\n  - ls\n");
    assert_eq!(
        ops,
        vec![
            Op::CreateSession("dev".to_string()),
            Op::SendKeys("dev:0.0".to_string(), "ls".to_string()),
            Op::AttachSession("dev".to_string()),
        ]
    );
}

#[test]
fn yaml_windows_as_string_degrades() {
    let ops = plan_from_yaml("name: dev\nwindows: oops\n");
    assert_eq!(
        ops,
        vec![Op::CreateSession("dev".to_string()), Op::AttachSession("dev".to_string())]
    );
}

#[test]
fn yaml_numeric_name_defaults() {
    let doc = parse_document("name: 42\nwindows:\n  - ls\n").expect("the document parses");
    assert_eq!(resolve_session(&doc), "default".to_string());
}

#[test]
fn yaml_empty_document_defaults() {
    let doc = parse_document("").expect("an empty document parses");
    assert!(matches!(doc, Doc::Other));
    let model = build_document(&doc);
    let ops = plan_after_probe(&model, false);
    assert_eq!(
        ops,
        vec![
            Op::CreateSession("default".to_string()),
            Op::AttachSession("default".to_string()),
        ]
    );
}

#[test]
fn yaml_empty_title_falls_back_to_shell() {
    let ops = plan_from_yaml("name: dev\nwindows:\n  - '': vim\n");
    assert_eq!(ops[1], Op::RenameWindow("dev".to_string(), "shell".to_string()));
}

#[test]
fn yaml_main_horizontal_splits_once() {
    let yaml = "name: s\nwindows:\n  - w:\n      layout: main-horizontal\n      panes:\n        - a\n        - b\n        - c\n";
    let ops = plan_from_yaml(yaml);
    let splits: Vec<&Op> = ops.iter().filter(|o| matches!(o, Op::SplitWindow(_, _))).collect();
    assert_eq!(splits.len(), 1);
    assert_eq!(*splits[0], Op::SplitWindow("s".to_string(), SplitDir::Horizontal));
    assert_eq!(ops[5], Op::SendKeys("s:0.2".to_string(), "c".to_string()));
}

#[test]
fn yaml_that_does_not_parse_is_an_error() {
    let r = parse_document("windows: [unclosed\n  - broken: : :\n");
    match r {
        Ok(_) => panic!("this text should not parse"),
        Err(e) => assert!(!e.message.is_empty()),
    }
}

#[test]
fn yaml_mapping_keys_are_preserved_in_order() {
    let doc = parse_document("name: dev\nwindows:\n  - a\n").expect("the document parses");
    match &doc {
        Doc::Mapping(entries) => {
            assert_eq!(entries.len(), 2);
            assert!(matches!(&entries[0].0, Doc::Text(s) if s == "name"));
            assert!(matches!(&entries[0].1, Doc::Text(s) if s == "dev"));
            assert!(matches!(&entries[1].0, Doc::Text(s) if s == "windows"));
            match &entries[1].1 {
                Doc::List(items) => {
                    assert_eq!(items.len(), 1);
                    assert!(matches!(&items[0], Doc::Text(s) if s == "a"));
                }
                _ => panic!("windows should parse as a list"),
            }
        }
        _ => panic!("the document root should parse as a mapping"),
    }
}

#[test]
fn yaml_non_string_scalars_become_other() {
    let doc = parse_document("a: 1\nb: true\nc: null\n").expect("the document parses");
    match &doc {
        Doc::Mapping(entries) => {
            assert_eq!(entries.len(), 3);
            for (_, v) in entries {
                assert!(matches!(v, Doc::Other));
            }
        }
        _ => panic!("the document root should parse as a mapping"),
    }
}
