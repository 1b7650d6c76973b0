//! Behavioural tests of the builder protocol: the example record's builder
//! and the slot operations every generated builder follows.

use robma_builder::command::{Command, CommandBuilder};
use robma_builder::emit::missing_field_message;
use robma_builder::slots::{accumulate_all, push_value, take_optional, take_required};

#[test]
fn scenario_full_record_construction() {
    let mut b = Command::builder();
    b.executable("cargo".to_string());
    b.arg("build".to_string());
    b.arg("--release".to_string());
    let command = b.build().expect("all required fields are set");
    let equivalent = Command {
        executable: "cargo".to_string(),
        args: vec!["build".to_string(), "--release".to_string()],
        env: vec![],
        current_dir: None,
    };
    assert_eq!(command, equivalent);
}

#[test]
fn missing_required_field_fails_with_exact_message() {
    let mut b = Command::builder();
    b.arg("x".to_string());
    let err = b.build().expect_err("executable was never set");
    assert_eq!(err, "Field 'executable' not initialized.");
    let untouched = CommandBuilder {
        executable: None,
        args: vec!["x".to_string()],
        env: vec![],
        current_dir: None,
    };
    assert_eq!(b, untouched);
    b.executable("make".to_string());
    let command = b.build().expect("re-callable once the field is filled");
    assert_eq!(command.executable, "make");
    assert_eq!(command.args, vec!["x".to_string()]);
}

#[test]
fn omitted_optional_field_stays_absent() {
    let mut b = Command::builder();
    b.executable("ls".to_string());
    let command = b.build().expect("optional fields may be omitted");
    assert!(command.current_dir.is_none());
}

#[test]
fn set_optional_field_is_present() {
    let mut b = Command::builder();
    b.executable("ls".to_string());
    b.current_dir("..".to_string());
    let command = b.build().expect("all fields set");
    assert_eq!(command.current_dir, Some("..".to_string()));
}

#[test]
fn accumulator_keeps_call_order() {
    let mut b = Command::builder();
    b.executable("sh".to_string());
    b.env("A=1".to_string());
    b.env("B=2".to_string());
    b.env("C=3".to_string());
    let command = b.build().expect("all required fields are set");
    assert_eq!(command.env, vec!["A=1".to_string(), "B=2".to_string(), "C=3".to_string()]);
    assert_eq!(command.args, Vec::<String>::new());
}

#[test]
fn zero_accumulated_elements_is_valid() {
    let mut b = Command::builder();
    b.executable("true".to_string());
    let command = b.build().expect("empty accumulators are valid");
    assert!(command.args.is_empty());
    assert!(command.env.is_empty());
}

#[test]
fn slot_take_required_reports_the_field_name() {
    let mut slot: Option<u32> = None;
    let r = take_required(&mut slot, "answer");
    assert_eq!(r.expect_err("slot is absent"), "Field 'answer' not initialized.");
    slot = Some(41);
    let r = take_required(&mut slot, "answer");
    assert_eq!(r.expect("slot is present"), 41);
    assert!(slot.is_none());
}

#[test]
fn slot_take_optional_passes_state_through() {
    let mut slot: Option<u8> = None;
    assert!(take_optional(&mut slot).is_none());
    slot = Some(9);
    assert_eq!(take_optional(&mut slot), Some(9));
    assert!(slot.is_none());
}

#[test]
fn slot_accumulation_appends_in_order() {
    let mut slot: Vec<u8> = vec![1];
    push_value(&mut slot, 2);
    accumulate_all(&mut slot, vec![3, 4]);
    assert_eq!(slot, vec![1, 2, 3, 4]);
    accumulate_all(&mut slot, vec![]);
    assert_eq!(slot, vec![1, 2, 3, 4]);
}

#[test]
fn missing_field_message_names_the_field() {
    assert_eq!(missing_field_message("current_dir"), "Field 'current_dir' not initialized.");
}
