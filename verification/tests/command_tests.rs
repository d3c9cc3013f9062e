use record_builder::command::Command;

#[test]
fn command_fresh_builder_reports_the_first_mandatory_field() {
    let e = Command::builder().build().unwrap_err();
    assert_eq!(e.field, "executable");
}

#[test]
fn command_build_reports_the_first_missing_field_in_declaration_order() {
    let e = Command::builder()
        .executable("ls".to_string())
        .build()
        .unwrap_err();
    assert_eq!(e.field, "args");

    let e = Command::builder()
        .executable("ls".to_string())
        .args(vec!["-l".to_string()])
        .build()
        .unwrap_err();
    assert_eq!(e.field, "env");
}

#[test]
fn command_builds_once_every_mandatory_field_is_set() {
    let c = Command::builder()
        .executable("ls".to_string())
        .args(vec!["-l".to_string(), "-a".to_string()])
        .env(vec![])
        .build()
        .unwrap();
    assert_eq!(c.executable, "ls");
    assert_eq!(c.args, vec!["-l".to_string(), "-a".to_string()]);
    assert!(c.env.is_empty());
    assert_eq!(c.current_dir, None);
}

#[test]
fn command_optional_field_round_trips() {
    let c = Command::builder()
        .executable("ls".to_string())
        .args(vec![])
        .env(vec![])
        .current_dir("/tmp".to_string())
        .build()
        .unwrap();
    assert_eq!(c.current_dir.as_deref(), Some("/tmp"));
}

#[test]
fn command_setters_commute_and_overwrite() {
    let a = Command::builder()
        .args(vec!["-l".to_string()])
        .executable("ls".to_string())
        .env(vec![])
        .executable("cat".to_string())
        .build()
        .unwrap();
    assert_eq!(a.executable, "cat");
    assert_eq!(a.args, vec!["-l".to_string()]);
}

#[test]
fn command_builder_is_reusable_after_failure_and_success() {
    let b = Command::builder().executable("ls".to_string());
    assert!(b.build().is_err());
    let b = b.args(vec![]).env(vec![]);
    let one = b.build().unwrap();
    let two = b.build().unwrap();
    assert_eq!(one.executable, "ls");
    assert_eq!(two.executable, "ls");
}
