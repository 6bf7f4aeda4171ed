use likec4::label::{label_for_completion, CodeLabel, CompletionKind, TextRange};

fn label(text: &str, kind: Option<CompletionKind>) -> Option<CodeLabel> {
    label_for_completion(&text.to_string(), kind)
}

fn range(start: usize, end: usize) -> TextRange {
    TextRange { start, end }
}

#[test]
fn class_is_shown_as_element() {
    let l = label("system", Some(CompletionKind::Class)).unwrap();
    assert_eq!(l.code, "element system");
    assert_eq!(l.highlight, range(8, 14));
    assert_eq!(l.filter_range, range(0, 6));
}

#[test]
fn struct_and_module_are_shown_as_element() {
    for kind in [CompletionKind::Struct, CompletionKind::Module] {
        let l = label("cloud", Some(kind)).unwrap();
        assert_eq!(l.code, "element cloud");
        assert_eq!(l.highlight, range(8, 13));
        assert_eq!(l.filter_range, range(0, 5));
    }
}

#[test]
fn function_is_shown_as_view() {
    let l = label("render", Some(CompletionKind::Function)).unwrap();
    assert_eq!(l.code, "view render");
    assert_eq!(l.highlight, range(5, 11));
    assert_eq!(l.filter_range, range(0, 6));
}

#[test]
fn property_gets_a_value_suffix() {
    let l = label("title", Some(CompletionKind::Property)).unwrap();
    assert_eq!(l.code, "title: value");
    assert_eq!(l.highlight, range(0, 5));
    assert_eq!(l.filter_range, range(0, 5));
}

#[test]
fn field_gets_a_value_suffix() {
    let l = label("color", Some(CompletionKind::Field)).unwrap();
    assert_eq!(l.code, "color: value");
    assert_eq!(l.highlight, range(0, 5));
    assert_eq!(l.filter_range, range(0, 5));
}

#[test]
fn plain_kinds_keep_the_label() {
    for kind in [
        CompletionKind::Keyword,
        CompletionKind::Enum,
        CompletionKind::EnumMember,
        CompletionKind::Color,
        CompletionKind::Variable,
        CompletionKind::Reference,
    ] {
        let l = label("model", Some(kind)).unwrap();
        assert_eq!(l.code, "model");
        assert_eq!(l.highlight, range(0, 5));
        assert_eq!(l.filter_range, range(0, 5));
    }
}

#[test]
fn missing_kind_gives_nothing() {
    assert!(label("x", None).is_none());
}

#[test]
fn unmapped_kinds_give_nothing() {
    for kind in [
        CompletionKind::Text,
        CompletionKind::Snippet,
        CompletionKind::Constant,
        CompletionKind::Method,
        CompletionKind::Other(42),
    ] {
        assert!(label("x", Some(kind)).is_none());
    }
}

#[test]
fn labelling_twice_gives_the_same_label() {
    let a = label("system", Some(CompletionKind::Class)).unwrap();
    let b = label("system", Some(CompletionKind::Class)).unwrap();
    assert_eq!(a.code, b.code);
    assert_eq!(a.highlight, b.highlight);
    assert_eq!(a.filter_range, b.filter_range);
}

#[test]
fn ranges_count_bytes_not_characters() {
    let l = label("héllo", Some(CompletionKind::Class)).unwrap();
    assert_eq!(l.code, "element héllo");
    assert_eq!(l.highlight, range(8, 14));
    assert_eq!(l.filter_range, range(0, 6));
    assert_eq!(&l.code[l.highlight.start..l.highlight.end], "héllo");
}

#[test]
fn empty_label_gives_empty_ranges() {
    let l = label("", Some(CompletionKind::Function)).unwrap();
    assert_eq!(l.code, "view ");
    assert_eq!(l.highlight, range(5, 5));
    assert_eq!(l.filter_range, range(0, 0));
}
