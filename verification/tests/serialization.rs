use todoist_payloads::{NewDue, NewTask};

#[test]
fn content_only() {
    let task = NewTask::new("Buy milk");
    assert_eq!(task.to_json(), "{\"content\":\"Buy milk\"}");
}

#[test]
fn empty_content_is_accepted() {
    let task = NewTask::new("");
    assert_eq!(task.to_json(), "{\"content\":\"\"}");
}

#[test]
fn due_string_without_language() {
    let mut task = NewTask::new("Call mom");
    task.due = Some(NewDue::String { due_string: "tomorrow".to_string(), due_lang: None });
    assert_eq!(task.to_json(), "{\"content\":\"Call mom\",\"due_string\":\"tomorrow\"}");
}

#[test]
fn due_string_with_language() {
    let mut task = NewTask::new("Call mom");
    task.due = Some(NewDue::String {
        due_string: "tomorrow".to_string(),
        due_lang: Some("en".to_string()),
    });
    assert_eq!(
        task.to_json(),
        "{\"content\":\"Call mom\",\"due_string\":\"tomorrow\",\"due_lang\":\"en\"}"
    );
}

#[test]
fn due_date() {
    let mut task = NewTask::new("Pay rent");
    task.due = Some(NewDue::Date { due_date: "2024-01-01".to_string() });
    assert_eq!(task.to_json(), "{\"content\":\"Pay rent\",\"due_date\":\"2024-01-01\"}");
}

#[test]
fn due_datetime() {
    let mut task = NewTask::new("Board flight");
    task.due = Some(NewDue::Datetime { due_datetime: "2024-01-01T12:00:00Z".to_string() });
    assert_eq!(
        task.to_json(),
        "{\"content\":\"Board flight\",\"due_datetime\":\"2024-01-01T12:00:00Z\"}"
    );
}

#[test]
fn description_only() {
    let mut task = NewTask::new("a");
    task.description = Some("details".to_string());
    assert_eq!(task.to_json(), "{\"content\":\"a\",\"description\":\"details\"}");
}

#[test]
fn project_id_only() {
    let mut task = NewTask::new("a");
    task.project_id = Some("2203306141".to_string());
    assert_eq!(task.to_json(), "{\"content\":\"a\",\"project_id\":\"2203306141\"}");
}

#[test]
fn section_id_only() {
    let mut task = NewTask::new("a");
    task.section_id = Some("7025".to_string());
    assert_eq!(task.to_json(), "{\"content\":\"a\",\"section_id\":\"7025\"}");
}

#[test]
fn parent_id_only() {
    let mut task = NewTask::new("a");
    task.parent_id = Some("2995104339".to_string());
    assert_eq!(task.to_json(), "{\"content\":\"a\",\"parent_id\":\"2995104339\"}");
}

#[test]
fn order_positive() {
    let mut task = NewTask::new("a");
    task.order = Some(42);
    assert_eq!(task.to_json(), "{\"content\":\"a\",\"order\":42}");
}

#[test]
fn order_negative() {
    let mut task = NewTask::new("a");
    task.order = Some(-7);
    assert_eq!(task.to_json(), "{\"content\":\"a\",\"order\":-7}");
}

#[test]
fn order_extremes() {
    let mut task = NewTask::new("a");
    task.order = Some(i32::MIN);
    assert_eq!(task.to_json(), "{\"content\":\"a\",\"order\":-2147483648}");
    task.order = Some(i32::MAX);
    assert_eq!(task.to_json(), "{\"content\":\"a\",\"order\":2147483647}");
    task.order = Some(0);
    assert_eq!(task.to_json(), "{\"content\":\"a\",\"order\":0}");
}

#[test]
fn labels_set_to_empty_list_appears_as_empty_array() {
    let mut task = NewTask::new("a");
    task.labels = Some(vec![]);
    assert_eq!(task.to_json(), "{\"content\":\"a\",\"labels\":[]}");
}

#[test]
fn labels_several() {
    let mut task = NewTask::new("a");
    task.labels = Some(vec!["home".to_string(), "errand".to_string()]);
    assert_eq!(task.to_json(), "{\"content\":\"a\",\"labels\":[\"home\",\"errand\"]}");
}

#[test]
fn priority_only() {
    let mut task = NewTask::new("a");
    task.priority = Some(4);
    assert_eq!(task.to_json(), "{\"content\":\"a\",\"priority\":4}");
}

#[test]
fn assignee_id_only() {
    let mut task = NewTask::new("a");
    task.assignee_id = Some("2671355".to_string());
    assert_eq!(task.to_json(), "{\"content\":\"a\",\"assignee_id\":\"2671355\"}");
}

#[test]
fn duration_with_unit() {
    let mut task = NewTask::new("a");
    task.duration = Some(30);
    task.duration_unit = Some("minute".to_string());
    assert_eq!(task.to_json(), "{\"content\":\"a\",\"duration\":30,\"duration_unit\":\"minute\"}");
}

#[test]
fn duration_large() {
    let mut task = NewTask::new("a");
    task.duration = Some(u32::MAX);
    assert_eq!(task.to_json(), "{\"content\":\"a\",\"duration\":4294967295}");
}

#[test]
fn every_field_set_in_wire_order() {
    let mut task = NewTask::new("c");
    task.description = Some("d".to_string());
    task.project_id = Some("p".to_string());
    task.section_id = Some("s".to_string());
    task.parent_id = Some("pa".to_string());
    task.order = Some(1);
    task.labels = Some(vec!["l".to_string()]);
    task.priority = Some(2);
    task.due = Some(NewDue::String {
        due_string: "today".to_string(),
        due_lang: Some("en".to_string()),
    });
    task.assignee_id = Some("u".to_string());
    task.duration = Some(15);
    task.duration_unit = Some("minute".to_string());
    assert_eq!(
        task.to_json(),
        "{\"content\":\"c\",\"description\":\"d\",\"project_id\":\"p\",\"section_id\":\"s\",\
         \"parent_id\":\"pa\",\"order\":1,\"labels\":[\"l\"],\"priority\":2,\
         \"due_string\":\"today\",\"due_lang\":\"en\",\"assignee_id\":\"u\",\
         \"duration\":15,\"duration_unit\":\"minute\"}"
    );
}

#[test]
fn due_variant_never_leaks_other_variants_keys() {
    let mut task = NewTask::new("a");
    task.due = Some(NewDue::Date { due_date: "2024-06-01".to_string() });
    let out = task.to_json();
    assert!(!out.contains("due_string"));
    assert!(!out.contains("due_datetime"));
    assert!(!out.contains("due_lang"));
    task.due = Some(NewDue::Datetime { due_datetime: "2024-06-01T08:00:00Z".to_string() });
    let out = task.to_json();
    assert!(!out.contains("due_string"));
    assert!(!out.contains("due_date\""));
    task.due = Some(NewDue::String { due_string: "today".to_string(), due_lang: None });
    let out = task.to_json();
    assert!(!out.contains("due_date"));
    assert!(!out.contains("due_datetime"));
    assert!(!out.contains("due_lang"));
}

#[test]
fn serialization_is_repeatable() {
    let mut task = NewTask::new("same");
    task.priority = Some(1);
    task.due = Some(NewDue::Date { due_date: "2024-02-02".to_string() });
    let first = task.to_json();
    let second = task.to_json();
    assert_eq!(first, second);
}

#[test]
fn string_escaping() {
    let task = NewTask::new("say \"hi\" to C:\\temp");
    assert_eq!(task.to_json(), "{\"content\":\"say \\\"hi\\\" to C:\\\\temp\"}");
}

#[test]
fn control_character_escaping() {
    let task = NewTask::new("a\nb\tc\rd\u{8}e\u{c}f\u{1}g\u{1f}h");
    assert_eq!(
        task.to_json(),
        "{\"content\":\"a\\nb\\tc\\rd\\be\\ff\\u0001g\\u001fh\"}"
    );
}

#[test]
fn unicode_content_passes_through() {
    let task = NewTask::new("aufräumen ✓");
    assert_eq!(task.to_json(), "{\"content\":\"aufräumen ✓\"}");
}
