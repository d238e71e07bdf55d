use getset_engine::{
    derive_getset, usize_to_decimal, AccessorKind, BodyShape, ConfigError, FieldInput,
    MetaEntry, Receiver, ReturnType, Vocabulary,
};

fn flag(t: &str) -> MetaEntry {
    MetaEntry::Flag(t.to_string())
}

fn kv(k: &str, v: &str) -> MetaEntry {
    MetaEntry::KeyValue(k.to_string(), v.to_string())
}

fn named_field(name: &str, ty: &str, occurrences: Vec<Vec<MetaEntry>>) -> FieldInput {
    FieldInput {
        ident: Some(name.to_string()),
        declared_type: ty.to_string(),
        doc_lines: vec![],
        occurrences,
    }
}

#[test]
fn end_to_end_count_field_gets_reader_and_setter() {
    let vocab = Vocabulary::standard();
    let fields = vec![named_field(
        "count",
        "i64",
        vec![
            vec![flag("get_copy"), kv("name", "get_count"), kv("vis", "pub")],
            vec![flag("set")],
        ],
    )];
    let methods = derive_getset(&vocab, &fields).unwrap();
    assert_eq!(methods.len(), 2);

    let getter = &methods[0];
    assert_eq!(getter.name, "get_count");
    assert_eq!(getter.visibility, Some("pub".to_string()));
    assert_eq!(getter.receiver, Receiver::Borrow);
    assert!(!getter.takes_value);
    assert_eq!(getter.body, BodyShape::CopyField);
    assert_eq!(getter.return_type, ReturnType::Field);
    assert_eq!(getter.field, "count");
    assert_eq!(getter.field_type, "i64");

    let setter = &methods[1];
    assert_eq!(setter.name, "set_count");
    assert_eq!(setter.visibility, None);
    assert_eq!(setter.receiver, Receiver::BorrowMut);
    assert!(setter.takes_value);
    assert_eq!(setter.body, BodyShape::Assign);
    assert_eq!(setter.return_type, ReturnType::Unit);
    assert_eq!(setter.field, "count");
}

#[test]
fn a_field_without_occurrences_contributes_nothing() {
    let vocab = Vocabulary::standard();
    let fields = vec![named_field("quiet", "u8", vec![])];
    let methods = derive_getset(&vocab, &fields).unwrap();
    assert!(methods.is_empty());

    let fields = vec![
        named_field("quiet", "u8", vec![]),
        named_field("loud", "u8", vec![vec![flag("get")]]),
    ];
    let methods = derive_getset(&vocab, &fields).unwrap();
    assert_eq!(methods.len(), 1);
    assert_eq!(methods[0].name, "loud");
}

#[test]
fn stacked_occurrences_keep_declaration_order() {
    let vocab = Vocabulary::standard();
    let fields = vec![named_field(
        "x",
        "i64",
        vec![vec![flag("get")], vec![flag("get_mut")], vec![flag("set")]],
    )];
    let methods = derive_getset(&vocab, &fields).unwrap();
    let names: Vec<&str> = methods.iter().map(|m| m.name.as_str()).collect();
    assert_eq!(names, ["x", "x_mut", "set_x"]);
}

#[test]
fn fields_keep_declaration_order() {
    let vocab = Vocabulary::standard();
    let fields = vec![
        named_field("a", "u8", vec![vec![flag("get")]]),
        named_field("b", "u8", vec![vec![flag("get")], vec![flag("set")]]),
        named_field("c", "u8", vec![vec![flag("get_mut")]]),
    ];
    let methods = derive_getset(&vocab, &fields).unwrap();
    let names: Vec<&str> = methods.iter().map(|m| m.name.as_str()).collect();
    assert_eq!(names, ["a", "b", "set_b", "c_mut"]);
}

#[test]
fn positional_fields_use_their_stringified_index() {
    let vocab = Vocabulary::standard();
    let fields = vec![
        FieldInput {
            ident: None,
            declared_type: "u8".to_string(),
            doc_lines: vec![],
            occurrences: vec![vec![flag("get"), kv("name", "first")]],
        },
        FieldInput {
            ident: None,
            declared_type: "u16".to_string(),
            doc_lines: vec![],
            occurrences: vec![vec![flag("set"), kv("name", "set_second")]],
        },
    ];
    let methods = derive_getset(&vocab, &fields).unwrap();
    assert_eq!(methods[0].field, "0");
    assert_eq!(methods[1].field, "1");
}

#[test]
fn a_positional_field_without_a_name_override_is_missing_name() {
    // The fallback identifier "0" is a bare numeral, which cannot be parsed
    // as a method identifier.
    let vocab = Vocabulary::standard();
    let fields = vec![FieldInput {
        ident: None,
        declared_type: "u8".to_string(),
        doc_lines: vec![],
        occurrences: vec![vec![flag("get")]],
    }];
    let err = derive_getset(&vocab, &fields).unwrap_err();
    assert_eq!(err, ConfigError::MissingName(AccessorKind::Read));
}

#[test]
fn the_first_error_aborts_the_whole_structure() {
    let vocab = Vocabulary::standard();
    let fields = vec![
        named_field("a", "u8", vec![vec![flag("get")]]),
        named_field("b", "u8", vec![vec![flag("grab")]]),
        named_field("c", "u8", vec![vec![flag("get")]]),
    ];
    let err = derive_getset(&vocab, &fields).unwrap_err();
    assert_eq!(err, ConfigError::UnknownKind("grab".to_string()));
}

#[test]
fn doc_lines_are_copied_onto_every_method_of_the_field() {
    let vocab = Vocabulary::standard();
    let fields = vec![FieldInput {
        ident: Some("x".to_string()),
        declared_type: "i64".to_string(),
        doc_lines: vec!["The x coordinate.".to_string()],
        occurrences: vec![vec![flag("get")], vec![flag("set")]],
    }];
    let methods = derive_getset(&vocab, &fields).unwrap();
    assert_eq!(methods[0].doc_lines, vec!["The x coordinate.".to_string()]);
    assert_eq!(methods[1].doc_lines, vec!["The x coordinate.".to_string()]);
}

#[test]
fn chaining_setters_share_the_default_name_but_differ_in_shape() {
    let vocab = Vocabulary::standard();
    let fields = vec![named_field(
        "x",
        "i64",
        vec![vec![flag("set_borrow")], vec![flag("set_own")]],
    )];
    let methods = derive_getset(&vocab, &fields).unwrap();
    assert_eq!(methods.len(), 2);
    assert_eq!(methods[0].name, "set_x");
    assert_eq!(methods[0].receiver, Receiver::BorrowMut);
    assert_eq!(methods[0].body, BodyShape::AssignThenSelf);
    assert_eq!(methods[0].return_type, ReturnType::RefMutSelf);
    assert_eq!(methods[1].name, "set_x");
    assert_eq!(methods[1].receiver, Receiver::Consume);
    assert_eq!(methods[1].body, BodyShape::AssignThenSelf);
    assert_eq!(methods[1].return_type, ReturnType::SelfValue);
}

#[test]
fn an_alternate_vocabulary_drives_the_whole_engine() {
    let vocab = Vocabulary::new(
        vec![
            ("deref_get".to_string(), AccessorKind::ReadThrough),
            ("put".to_string(), AccessorKind::Write),
        ],
        "rename".to_string(),
        "show".to_string(),
        "type".to_string(),
    );
    let fields = vec![named_field(
        "inner",
        "Box<u8>",
        vec![
            vec![flag("deref_get"), kv("show", "pub")],
            vec![flag("put"), kv("rename", "replace_inner")],
        ],
    )];
    let methods = derive_getset(&vocab, &fields).unwrap();
    assert_eq!(methods[0].name, "inner");
    assert_eq!(methods[0].visibility, Some("pub".to_string()));
    assert_eq!(methods[0].return_type, ReturnType::RefTarget);
    assert_eq!(methods[1].name, "replace_inner");
    assert_eq!(methods[1].body, BodyShape::Assign);
}

#[test]
fn decimal_rendering_of_indices() {
    assert_eq!(usize_to_decimal(0), "0");
    assert_eq!(usize_to_decimal(7), "7");
    assert_eq!(usize_to_decimal(10), "10");
    assert_eq!(usize_to_decimal(42), "42");
    assert_eq!(usize_to_decimal(90210), "90210");
}
