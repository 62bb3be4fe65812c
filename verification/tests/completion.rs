use zed_laravel::completion::{
    blade_directive_list, build_label, is_blade_directive, is_laravel_facade, is_laravel_helper,
    laravel_facade_list, laravel_helper_list, scan_project_helpers, CodeLabel, CodeLabelSpan,
    Completion, CompletionKind,
};

fn completion(label: &str, kind: Option<CompletionKind>) -> Completion {
    Completion {
        label: label.to_string(),
        label_details: None,
        detail: None,
        kind,
        insert_text_format: None,
    }
}

fn range(l: &CodeLabel) -> (u32, u32) {
    (l.filter_range.start, l.filter_range.end)
}

#[test]
fn helpers_facades_blade() {
    assert!(is_laravel_helper("route"));
    assert!(is_laravel_helper("view"));
    assert!(is_laravel_facade("Auth"));
    assert!(is_laravel_facade("Route"));
    assert!(is_blade_directive("@csrf"));
    assert!(!is_blade_directive("@banana"));
}

#[test]
fn function_label() {
    let c = completion("route", Some(CompletionKind::Function));
    let label = build_label(&c).unwrap();
    assert!(label.code.starts_with("fn "));
}

#[test]
fn class_label() {
    let c = completion("User", Some(CompletionKind::Class));
    let label = build_label(&c).unwrap();
    assert!(label.code.starts_with("class "));
}

#[test]
fn snippet_label() {
    let c = completion("@csrf", Some(CompletionKind::Snippet));
    let label = build_label(&c).unwrap();
    assert!(label.code.starts_with("@csrf"));
}

#[test]
fn every_listed_name_is_recognised() {
    for h in laravel_helper_list() {
        assert!(is_laravel_helper(h), "{}", h);
    }
    for f in laravel_facade_list() {
        assert!(is_laravel_facade(f), "{}", f);
    }
    for d in blade_directive_list() {
        assert!(is_blade_directive(d), "{}", d);
    }
    assert!(is_laravel_helper("to_route"));
    assert!(is_blade_directive("@default"));
    assert!(!is_laravel_helper("Route"));
    assert!(!is_laravel_facade("route"));
    assert!(!is_blade_directive("csrf"));
}

#[test]
fn function_label_spans_the_name() {
    let label = build_label(&completion("route", Some(CompletionKind::Method))).unwrap();
    assert_eq!(label.code, "fn route()");
    match &label.spans[..] {
        [CodeLabelSpan::CodeRange(r)] => assert_eq!((r.start, r.end), (3, 8)),
        _ => panic!("one code range expected"),
    }
    assert_eq!(range(&label), (0, 5));
}

#[test]
fn class_and_constant_labels() {
    let label = build_label(&completion("Üser", Some(CompletionKind::Struct))).unwrap();
    assert_eq!(label.code, "class Üser");
    match &label.spans[..] {
        [CodeLabelSpan::CodeRange(r)] => assert_eq!((r.start, r.end), (6, 11)),
        _ => panic!("one code range expected"),
    }
    assert_eq!(range(&label), (0, 5));
    let label = build_label(&completion("MAX", Some(CompletionKind::Constant))).unwrap();
    assert_eq!(label.code, "const MAX");
    assert_eq!(range(&label), (0, 3));
}

#[test]
fn variable_label() {
    let label = build_label(&completion("name", Some(CompletionKind::Property))).unwrap();
    assert_eq!(label.code, "$name");
    match &label.spans[..] {
        [CodeLabelSpan::CodeRange(r)] => assert_eq!((r.start, r.end), (0, 5)),
        _ => panic!("one code range expected"),
    }
    assert_eq!(range(&label), (1, 5));
}

#[test]
fn literal_labels_carry_highlights() {
    let highlight = |l: &CodeLabel| match &l.spans[..] {
        [CodeLabelSpan::Literal(lit)] => (lit.text.clone(), lit.highlight_name.clone()),
        _ => panic!("one literal expected"),
    };
    let l = build_label(&completion("return", Some(CompletionKind::Keyword))).unwrap();
    assert_eq!(highlight(&l), ("return".to_string(), Some("keyword".to_string())));
    let l = build_label(&completion("@foreach", Some(CompletionKind::Snippet))).unwrap();
    assert_eq!(highlight(&l), ("@foreach".to_string(), Some("string.special".to_string())));
    let l = build_label(&completion("migration", Some(CompletionKind::Snippet))).unwrap();
    assert_eq!(highlight(&l), ("migration".to_string(), Some("snippet".to_string())));
    let l = build_label(&completion("App\\Models", Some(CompletionKind::Module))).unwrap();
    assert_eq!(highlight(&l), ("App\\Models".to_string(), Some("namespace".to_string())));
    assert_eq!(l.code, "App\\Models");
    assert_eq!(range(&l), (0, 10));
}

#[test]
fn no_label_without_kind_or_for_other_kinds() {
    assert!(build_label(&completion("x", None)).is_none());
    assert!(build_label(&completion("x", Some(CompletionKind::Text))).is_none());
    assert!(build_label(&completion("x", Some(CompletionKind::Other(7)))).is_none());
}

#[test]
fn project_helpers_are_read_line_by_line() {
    let a = "<?php\n\nfunction money($v) {\n  return $v;\n}\n  function  slug($s) {}\r\nfunction noparens\n// function commented()\n".to_string();
    let b = "function second()".to_string();
    let names = scan_project_helpers(&vec![a, b]);
    assert_eq!(names, vec!["money", " slug", "noparens", "second"]);
}
