use record_builder::record::{FieldDecl, RecordData, RecordDescription};
use record_builder::type_expr::TypeExpr;

fn leaf(name: &str) -> TypeExpr {
    TypeExpr::Path { segments: vec![name.to_string()], arg: None }
}

fn generic(head: &str, arg: TypeExpr) -> TypeExpr {
    TypeExpr::Path { segments: vec![head.to_string()], arg: Some(Box::new(arg)) }
}

fn field(name: &str, ty: TypeExpr) -> FieldDecl {
    FieldDecl { name: name.to_string(), ty }
}

fn record(name: &str, fields: Vec<FieldDecl>) -> RecordDescription {
    RecordDescription { name: name.to_string(), data: RecordData::Named { fields } }
}

fn command_record(name: &str) -> RecordDescription {
    record(
        name,
        vec![
            field("executable", leaf("String")),
            field("args", generic("Vec", leaf("String"))),
            field("env", generic("Vec", leaf("String"))),
            field("current_dir", generic("Option", leaf("String"))),
        ],
    )
}

fn head_of(ty: &TypeExpr) -> &str {
    match ty {
        TypeExpr::Path { segments, .. } => segments[0].as_str(),
        TypeExpr::Unsupported => panic!("expected a path"),
    }
}

#[test]
fn derive_builder_name_is_record_name_with_suffix() {
    let b = record_builder::synth::derive(command_record("Command")).unwrap();
    assert_eq!(b.record_name, "Command");
    assert_eq!(b.builder_name, "CommandBuilder");
    assert_eq!(b.build_op.result_name, "Command");
}

#[test]
fn derive_emits_one_slot_and_one_setter_per_field() {
    let b = record_builder::synth::derive(command_record("Command")).unwrap();
    assert_eq!(b.slots.len(), 4);
    assert_eq!(b.setters.len(), 4);
    let slot_names: Vec<&str> = b.slots.iter().map(|s| s.name.as_str()).collect();
    assert_eq!(slot_names, vec!["executable", "args", "env", "current_dir"]);
    let setter_names: Vec<&str> = b.setters.iter().map(|s| s.name.as_str()).collect();
    assert_eq!(setter_names, vec!["executable", "args", "env", "current_dir"]);
}

#[test]
fn derive_makes_every_slot_optionally_typed() {
    let b = record_builder::synth::derive(command_record("Command")).unwrap();
    for slot in &b.slots {
        match &slot.slot_type {
            TypeExpr::Path { segments, arg } => {
                assert_eq!(segments.len(), 1);
                assert_eq!(segments[0], "Option");
                assert!(arg.is_some());
            }
            TypeExpr::Unsupported => panic!("slot type must be a path"),
        }
    }
    // The optional field's slot wraps the payload, not the wrapper again.
    match &b.slots[3].slot_type {
        TypeExpr::Path { arg: Some(inner), .. } => assert_eq!(head_of(inner), "String"),
        _ => panic!("expected a wrapped slot type"),
    }
}

#[test]
fn derive_setter_argument_types_are_the_inner_types() {
    let b = record_builder::synth::derive(command_record("Command")).unwrap();
    assert_eq!(head_of(&b.setters[0].arg_type), "String");
    assert_eq!(head_of(&b.setters[1].arg_type), "Vec");
    assert_eq!(head_of(&b.setters[2].arg_type), "Vec");
    assert_eq!(head_of(&b.setters[3].arg_type), "String");
}

#[test]
fn derive_build_op_checks_exactly_the_mandatory_fields_in_order() {
    let b = record_builder::synth::derive(command_record("Command")).unwrap();
    let mandatory: Vec<&str> = b.build_op.mandatory.iter().map(|s| s.as_str()).collect();
    assert_eq!(mandatory, vec!["executable", "args", "env"]);
}

#[test]
fn derive_twice_in_one_program_yields_isolated_names() {
    let one = record_builder::synth::derive(record("Command", vec![field("executable", leaf("String"))])).unwrap();
    let two = record_builder::synth::derive(record("Command2", vec![field("executable", leaf("String"))])).unwrap();
    assert_eq!(one.builder_name, "CommandBuilder");
    assert_eq!(two.builder_name, "Command2Builder");
    assert_ne!(one.builder_name, two.builder_name);
    assert_eq!(one.build_op.result_name, "Command");
    assert_eq!(two.build_op.result_name, "Command2");
}

#[test]
fn derive_propagates_classification_errors() {
    let r = RecordDescription { name: "E".to_string(), data: RecordData::Other };
    assert!(record_builder::synth::derive(r).is_err());
    let empty = record("E", vec![]);
    assert!(record_builder::synth::derive(empty).is_err());
}
