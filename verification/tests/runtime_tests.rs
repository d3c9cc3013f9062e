use record_builder::classify::classify;
use record_builder::record::{FieldDecl, RecordData, RecordDescription};
use record_builder::runtime::{Builder, BuildError, FieldValue};
use record_builder::type_expr::TypeExpr;

fn leaf(name: &str) -> TypeExpr {
    TypeExpr::Path { segments: vec![name.to_string()], arg: None }
}

fn generic(head: &str, arg: TypeExpr) -> TypeExpr {
    TypeExpr::Path { segments: vec![head.to_string()], arg: Some(Box::new(arg)) }
}

fn field(name: &str, ty: TypeExpr) -> FieldDecl {
    FieldDecl { name: name.to_string(), ty }
}

/// A fresh builder for the record `{ name: String, tag: Option<String> }`.
fn name_tag_builder() -> Builder<String> {
    let r = RecordDescription {
        name: "Entry".to_string(),
        data: RecordData::Named {
            fields: vec![
                field("name", leaf("String")),
                field("tag", generic("Option", leaf("String"))),
            ],
        },
    };
    Builder::new(classify(r).unwrap())
}

/// A fresh builder for a record with two mandatory fields.
fn two_mandatory_builder() -> Builder<String> {
    let r = RecordDescription {
        name: "Pair".to_string(),
        data: RecordData::Named {
            fields: vec![field("first", leaf("String")), field("second", leaf("String"))],
        },
    };
    Builder::new(classify(r).unwrap())
}

fn required(v: &FieldValue<String>) -> &str {
    match v {
        FieldValue::Required(s) => s.as_str(),
        FieldValue::Optional(_) => panic!("expected a mandatory field"),
    }
}

fn optional(v: &FieldValue<String>) -> Option<&str> {
    match v {
        FieldValue::Optional(o) => o.as_deref(),
        FieldValue::Required(_) => panic!("expected an optional field"),
    }
}

#[test]
fn fresh_builder_fails_naming_the_missing_mandatory_field() {
    let b = name_tag_builder();
    let e = b.build().unwrap_err();
    assert_eq!(e.field, "name");
    assert_eq!(e.message(), "missing mandatory field: name");
}

#[test]
fn build_succeeds_once_every_mandatory_field_is_set() {
    let b = name_tag_builder().set(&"name".to_string(), "x".to_string());
    let rec = b.build().unwrap();
    assert_eq!(required(rec.get(&"name".to_string()).unwrap()), "x");
    assert_eq!(optional(rec.get(&"tag".to_string()).unwrap()), None);
}

#[test]
fn optional_field_round_trips_present_with_value() {
    let b = name_tag_builder()
        .set(&"name".to_string(), "x".to_string())
        .set(&"tag".to_string(), "y".to_string());
    let rec = b.build().unwrap();
    assert_eq!(required(rec.get(&"name".to_string()).unwrap()), "x");
    assert_eq!(optional(rec.get(&"tag".to_string()).unwrap()), Some("y"));
}

#[test]
fn two_mandatory_fields_error_names_the_unset_one() {
    let b = two_mandatory_builder().set(&"first".to_string(), "1".to_string());
    let e = b.build().unwrap_err();
    assert_eq!(e.field, "second");

    let b = two_mandatory_builder().set(&"second".to_string(), "2".to_string());
    let e = b.build().unwrap_err();
    assert_eq!(e.field, "first");
}

#[test]
fn builder_remains_usable_after_a_failed_build() {
    let b = name_tag_builder();
    assert!(b.build().is_err());
    let b = b.set(&"name".to_string(), "x".to_string());
    assert!(b.build().is_ok());
}

#[test]
fn builder_remains_usable_after_a_successful_build() {
    let b = two_mandatory_builder()
        .set(&"first".to_string(), "1".to_string())
        .set(&"second".to_string(), "2".to_string());
    let one = b.build().unwrap();
    let two = b.build().unwrap();
    assert_eq!(required(one.get(&"first".to_string()).unwrap()), "1");
    assert_eq!(required(two.get(&"first".to_string()).unwrap()), "1");
}

#[test]
fn setter_orderings_commute() {
    let forward = two_mandatory_builder()
        .set(&"first".to_string(), "1".to_string())
        .set(&"second".to_string(), "2".to_string());
    let backward = two_mandatory_builder()
        .set(&"second".to_string(), "2".to_string())
        .set(&"first".to_string(), "1".to_string());
    let a = forward.build().unwrap();
    let b = backward.build().unwrap();
    assert_eq!(required(a.get(&"first".to_string()).unwrap()), "1");
    assert_eq!(required(b.get(&"first".to_string()).unwrap()), "1");
    assert_eq!(required(a.get(&"second".to_string()).unwrap()), "2");
    assert_eq!(required(b.get(&"second".to_string()).unwrap()), "2");
}

#[test]
fn repeated_setter_keeps_the_last_value() {
    let b = name_tag_builder()
        .set(&"name".to_string(), "old".to_string())
        .set(&"name".to_string(), "new".to_string());
    let rec = b.build().unwrap();
    assert_eq!(required(rec.get(&"name".to_string()).unwrap()), "new");
}

#[test]
fn setter_with_unknown_name_changes_nothing() {
    let b = name_tag_builder()
        .set(&"name".to_string(), "x".to_string())
        .set(&"no_such_field".to_string(), "y".to_string());
    let rec = b.build().unwrap();
    assert!(rec.get(&"no_such_field".to_string()).is_none());
    assert_eq!(required(rec.get(&"name".to_string()).unwrap()), "x");
}

#[test]
fn absence_is_reported_never_defaulted() {
    // A missing mandatory value surfaces as an error; it is never replaced
    // with an empty value.
    let b = two_mandatory_builder().set(&"first".to_string(), "".to_string());
    let e = b.build().unwrap_err();
    assert_eq!(e.field, "second");
}

#[test]
fn builder_for_classifies_and_starts_empty() {
    let r = RecordDescription {
        name: "Entry".to_string(),
        data: RecordData::Named {
            fields: vec![
                field("name", leaf("String")),
                field("tag", generic("Option", leaf("String"))),
            ],
        },
    };
    let b: Builder<String> = record_builder::runtime::builder_for(r).unwrap();
    let e = b.build().unwrap_err();
    assert_eq!(e.field, "name");

    let bad = RecordDescription { name: "E".to_string(), data: RecordData::Other };
    assert!(record_builder::runtime::builder_for::<String>(bad).is_err());
}

#[test]
fn build_error_converts_from_a_description_string() {
    let e = BuildError::from("a description".to_string());
    assert_eq!(e.field, "a description");
}
