use getset_engine::{
    synthesize, AccessorKind, AttributeLayout, BodyShape, ConfigError, FieldRef, Receiver,
    ReturnType,
};

fn layout(kind: AccessorKind) -> AttributeLayout {
    AttributeLayout { name_override: None, visibility: None, kind: Some(kind), type_override: None }
}

fn field(name: &str, ty: &str) -> FieldRef {
    FieldRef { name_or_index: name.to_string(), declared_type: ty.to_string() }
}

#[test]
fn return_types_follow_the_per_kind_table() {
    let f = field("x", "i64");
    let table = [
        (AccessorKind::Read, ReturnType::RefField),
        (AccessorKind::ReadMut, ReturnType::RefMutField),
        (AccessorKind::ReadCopy, ReturnType::Field),
        (AccessorKind::ReadThrough, ReturnType::RefTarget),
        (AccessorKind::ReadThroughMut, ReturnType::RefMutTarget),
        (AccessorKind::ReadThroughCopy, ReturnType::Target),
        (AccessorKind::Write, ReturnType::Unit),
        (AccessorKind::WriteBorrowed, ReturnType::RefMutSelf),
        (AccessorKind::WriteOwned, ReturnType::SelfValue),
    ];
    for (kind, expected) in table {
        let m = synthesize(&layout(kind), &f, &vec![]).unwrap();
        assert_eq!(m.return_type, expected, "kind {kind:?}");
    }
}

#[test]
fn a_type_override_replaces_the_return_type_verbatim() {
    let f = field("x", "i64");
    for kind in [
        AccessorKind::Read,
        AccessorKind::ReadCopy,
        AccessorKind::ReadAsRef,
        AccessorKind::ReadAsThrough,
        AccessorKind::ReadAsThroughMut,
        AccessorKind::Write,
    ] {
        let mut l = layout(kind);
        l.type_override = Some("Option<&str>".to_string());
        let m = synthesize(&l, &f, &vec![]).unwrap();
        assert_eq!(m.return_type, ReturnType::Override("Option<&str>".to_string()), "kind {kind:?}");
    }
}

#[test]
fn as_kinds_without_a_type_override_are_missing_type() {
    let f = field("x", "Option<String>");
    for kind in
        [AccessorKind::ReadAsRef, AccessorKind::ReadAsThrough, AccessorKind::ReadAsThroughMut]
    {
        let err = synthesize(&layout(kind), &f, &vec![]).unwrap_err();
        assert_eq!(err, ConfigError::MissingType(kind), "kind {kind:?}");
    }
}

#[test]
fn no_other_kind_ever_yields_missing_type() {
    let f = field("x", "i64");
    for kind in [
        AccessorKind::Read,
        AccessorKind::ReadMut,
        AccessorKind::ReadCopy,
        AccessorKind::ReadThrough,
        AccessorKind::ReadThroughMut,
        AccessorKind::ReadThroughCopy,
        AccessorKind::Write,
        AccessorKind::WriteBorrowed,
        AccessorKind::WriteOwned,
    ] {
        let r = synthesize(&layout(kind), &f, &vec![]);
        assert!(
            !matches!(r, Err(ConfigError::MissingType(_))),
            "kind {kind:?} yielded MissingType"
        );
        assert!(r.is_ok(), "kind {kind:?}");
    }
}

#[test]
fn default_names_follow_the_kind() {
    let f = field("x", "i64");
    let m = synthesize(&layout(AccessorKind::Read), &f, &vec![]).unwrap();
    assert_eq!(m.name, "x");
    let m = synthesize(&layout(AccessorKind::ReadMut), &f, &vec![]).unwrap();
    assert_eq!(m.name, "x_mut");
    let m = synthesize(&layout(AccessorKind::Write), &f, &vec![]).unwrap();
    assert_eq!(m.name, "set_x");
}

#[test]
fn a_name_override_is_used_verbatim() {
    let f = field("x", "i64");
    let mut l = layout(AccessorKind::ReadMut);
    l.name_override = Some("peek".to_string());
    let m = synthesize(&l, &f, &vec![]).unwrap();
    assert_eq!(m.name, "peek");
}

#[test]
fn a_missing_kind_is_reported() {
    let l = AttributeLayout {
        name_override: None,
        visibility: None,
        kind: None,
        type_override: None,
    };
    let err = synthesize(&l, &field("x", "i64"), &vec![]).unwrap_err();
    assert_eq!(err, ConfigError::MissingKind);
}

#[test]
fn an_underivable_default_name_is_missing_name() {
    // A positional field's name-or-index is a bare numeral, which is not a
    // valid method identifier.
    let f = field("0", "i64");
    let err = synthesize(&layout(AccessorKind::Read), &f, &vec![]).unwrap_err();
    assert_eq!(err, ConfigError::MissingName(AccessorKind::Read));
}

#[test]
fn a_name_override_rescues_a_positional_field() {
    let f = field("0", "i64");
    let mut l = layout(AccessorKind::Read);
    l.name_override = Some("first".to_string());
    let m = synthesize(&l, &f, &vec![]).unwrap();
    assert_eq!(m.name, "first");
    assert_eq!(m.field, "0");
}

#[test]
fn receivers_and_bodies_follow_the_per_kind_table() {
    let f = field("x", "Box<u8>");
    let table = [
        (AccessorKind::Read, Receiver::Borrow, BodyShape::BorrowField, false),
        (AccessorKind::ReadMut, Receiver::BorrowMut, BodyShape::BorrowMutField, false),
        (AccessorKind::ReadCopy, Receiver::Borrow, BodyShape::CopyField, false),
        (AccessorKind::ReadThrough, Receiver::Borrow, BodyShape::BorrowField, false),
        (AccessorKind::ReadThroughMut, Receiver::BorrowMut, BodyShape::BorrowMutField, false),
        (AccessorKind::ReadThroughCopy, Receiver::Borrow, BodyShape::DerefCopyField, false),
        (AccessorKind::Write, Receiver::BorrowMut, BodyShape::Assign, true),
        (AccessorKind::WriteBorrowed, Receiver::BorrowMut, BodyShape::AssignThenSelf, true),
        (AccessorKind::WriteOwned, Receiver::Consume, BodyShape::AssignThenSelf, true),
    ];
    for (kind, receiver, body, takes_value) in table {
        let m = synthesize(&layout(kind), &f, &vec![]).unwrap();
        assert_eq!(m.receiver, receiver, "kind {kind:?}");
        assert_eq!(m.body, body, "kind {kind:?}");
        assert_eq!(m.takes_value, takes_value, "kind {kind:?}");
    }
}

#[test]
fn as_kinds_carry_their_conversion_bodies() {
    let f = field("x", "Option<Box<str>>");
    let mut l = layout(AccessorKind::ReadAsRef);
    l.type_override = Some("Option<&Box<str>>".to_string());
    let m = synthesize(&l, &f, &vec![]).unwrap();
    assert_eq!(m.receiver, Receiver::Borrow);
    assert_eq!(m.body, BodyShape::AsRefField);
    let mut l = layout(AccessorKind::ReadAsThrough);
    l.type_override = Some("Option<&str>".to_string());
    let m = synthesize(&l, &f, &vec![]).unwrap();
    assert_eq!(m.body, BodyShape::AsDerefField);
    let mut l = layout(AccessorKind::ReadAsThroughMut);
    l.type_override = Some("Option<&mut str>".to_string());
    let m = synthesize(&l, &f, &vec![]).unwrap();
    assert_eq!(m.receiver, Receiver::BorrowMut);
    assert_eq!(m.body, BodyShape::AsDerefMutField);
}

#[test]
fn missing_name_is_reported_before_missing_type() {
    let f = field("0", "Option<String>");
    let err = synthesize(&layout(AccessorKind::ReadAsRef), &f, &vec![]).unwrap_err();
    assert_eq!(err, ConfigError::MissingName(AccessorKind::ReadAsRef));
}

#[test]
fn doc_lines_and_visibility_are_carried_over() {
    let f = field("x", "i64");
    let mut l = layout(AccessorKind::Read);
    l.visibility = Some("pub(crate)".to_string());
    let docs = vec!["The x coordinate.".to_string(), "In meters.".to_string()];
    let m = synthesize(&l, &f, &docs).unwrap();
    assert_eq!(m.visibility, Some("pub(crate)".to_string()));
    assert_eq!(m.doc_lines, docs);
    assert_eq!(m.field_type, "i64");
}
