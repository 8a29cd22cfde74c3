use rustvent::triggers::{trigger_method_names, DeriveError, FieldInfo};

fn field(name: &str, ty: &str) -> FieldInfo {
    FieldInfo { name: name.to_string(), ty: ty.to_string() }
}

#[test]
fn two_event_fields_get_two_trigger_methods() {
    let fields = vec![
        field("process_completed", "Event"),
        field("process_error", "Event"),
    ];

    let names = trigger_method_names(true, &fields).unwrap();

    assert_eq!(vec!["on_process_completed", "on_process_error"], names);
}

#[test]
fn additional_struct_fields_do_not_get_methods() {
    let fields = vec![
        field("id", "u8"),
        field("process_completed", "Event"),
        field("process_error", "Event"),
    ];

    let names = trigger_method_names(true, &fields).unwrap();

    assert_eq!(vec!["on_process_completed", "on_process_error"], names);
}

#[test]
fn non_event_fields_only_give_no_methods() {
    let fields = vec![field("id", "u8"), field("name", "String")];

    let names = trigger_method_names(true, &fields).unwrap();

    assert!(names.is_empty());
}

#[test]
fn input_that_is_not_a_struct_is_rejected() {
    let fields: Vec<FieldInfo> = Vec::new();

    let result = trigger_method_names(false, &fields);

    assert_eq!(Err(DeriveError::NotAStruct), result);
}

#[test]
fn event_named_type_must_match_exactly() {
    let fields = vec![
        field("process_completed", "EventAsync"),
        field("other", "event"),
        field("real", "Event"),
    ];

    let names = trigger_method_names(true, &fields).unwrap();

    assert_eq!(vec!["on_real"], names);
}
