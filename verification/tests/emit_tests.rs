use record_builder::emit::{emit, render_type_expr};
use record_builder::record::{FieldDecl, RecordData, RecordDescription};
use record_builder::type_expr::TypeExpr;

fn leaf(name: &str) -> TypeExpr {
    TypeExpr::Path { segments: vec![name.to_string()], arg: None }
}

fn generic(head: &str, arg: TypeExpr) -> TypeExpr {
    TypeExpr::Path { segments: vec![head.to_string()], arg: Some(Box::new(arg)) }
}

fn field(name: &str, ty: TypeExpr) -> FieldDecl {
    FieldDecl { name: name.to_string(), ty }
}

#[test]
fn render_plain_path() {
    assert_eq!(render_type_expr(&leaf("String")), "String");
}

#[test]
fn render_qualified_path() {
    let ty = TypeExpr::Path {
        segments: vec!["std".to_string(), "option".to_string(), "Option".to_string()],
        arg: Some(Box::new(leaf("String"))),
    };
    assert_eq!(render_type_expr(&ty), "std::option::Option<String>");
}

#[test]
fn render_nested_arguments() {
    let ty = generic("Option", generic("Vec", leaf("String")));
    assert_eq!(render_type_expr(&ty), "Option<Vec<String>>");
}

#[test]
fn emit_whole_builder_declaration() {
    let r = RecordDescription {
        name: "Entry".to_string(),
        data: RecordData::Named {
            fields: vec![
                field("name", leaf("String")),
                field("tag", generic("Option", leaf("String"))),
            ],
        },
    };
    let b = record_builder::synth::derive(r).unwrap();
    let text = emit(&b);
    assert_eq!(
        text,
        "struct EntryBuilder {\n\
         \x20   name: Option<String>,\n\
         \x20   tag: Option<String>,\n\
         }\n\
         fn builder() -> EntryBuilder;\n\
         fn name(self, val: String) -> Self;\n\
         fn tag(self, val: String) -> Self;\n\
         fn build(&self) -> Result<Entry, BuildError>;\n"
    );
}
