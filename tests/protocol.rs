use task_client::body::{json_object, property_name, update_json};
use task_client::interpret::{expected_shape, interpret, is_success, Decoded, Operation, Outcome, Shape};
use task_client::request::{
    authorization, create_request, delete_request, form_fields, list_request, new_task, parse_flag,
    parse_property, parse_update, task_path, tasks_path, update_request, view_request, Body,
    Method, PartialUpdate, Property, ValidationError,
};
use task_client::task::{ErrorPayload, Task};
use task_client::text::{decimal, is_blank, is_blank_char, same_text, trimmed};

fn task(id: u32, title: &str) -> Task {
    Task {
        id,
        title: title.to_string(),
        description: "write the report".to_string(),
        done: false,
        created_at: "2024-03-01T10:00:00Z".to_string(),
    }
}

fn payload(message: &str) -> ErrorPayload {
    ErrorPayload { message: message.to_string() }
}

#[test]
fn decimal_writes_digits() {
    assert_eq!(decimal(0), "0");
    assert_eq!(decimal(7), "7");
    assert_eq!(decimal(10), "10");
    assert_eq!(decimal(4096), "4096");
    assert_eq!(decimal(u32::MAX), "4294967295");
}

#[test]
fn text_helpers() {
    assert!(same_text("done", "done"));
    assert!(!same_text("done", "don"));
    assert!(!same_text("done", "dune"));
    assert!(is_blank(""));
    assert!(is_blank(" \t\r\n"));
    assert!(!is_blank("  a "));
}

#[test]
fn paths_and_header() {
    assert_eq!(tasks_path(), "/tasks");
    assert_eq!(task_path(42), "/tasks/42");
    assert_eq!(task_path(0), "/tasks/0");
    assert_eq!(authorization("abc.def"), "Bearer abc.def");
    assert_eq!(authorization(""), "Bearer ");
}

#[test]
fn requests_per_operation() {
    let nt = new_task("Buy milk", "two litres").unwrap();
    let r = create_request("tok", nt.clone());
    assert_eq!(r.method, Method::Post);
    assert_eq!(r.path, "/tasks");
    assert_eq!(r.authorization, "Bearer tok");
    assert_eq!(r.body, Body::Form(nt));

    let r = list_request("tok");
    assert_eq!((r.method, r.path.as_str(), r.body), (Method::Get, "/tasks", Body::Empty));

    let r = view_request("tok", 9);
    assert_eq!((r.method, r.path.as_str(), r.body), (Method::Get, "/tasks/9", Body::Empty));

    let r = delete_request("tok", 15);
    assert_eq!((r.method, r.path.as_str(), r.body), (Method::Delete, "/tasks/15", Body::Empty));
    assert_eq!(r.authorization, "Bearer tok");
}

#[test]
fn new_task_needs_a_title() {
    assert_eq!(new_task("", "anything"), Err(ValidationError::EmptyTitle));
    assert_eq!(new_task("  \n", ""), Err(ValidationError::EmptyTitle));
    let nt = new_task("Title", "").unwrap();
    assert_eq!(nt.title, "Title");
    assert_eq!(nt.description, "");
}

#[test]
fn properties_and_flags() {
    assert_eq!(parse_property("title"), Some(Property::Title));
    assert_eq!(parse_property("description"), Some(Property::Description));
    assert_eq!(parse_property("done"), Some(Property::Done));
    assert_eq!(parse_property("owner"), None);
    assert_eq!(parse_property("Done"), None);
    assert_eq!(parse_flag("true"), Some(true));
    assert_eq!(parse_flag("false"), Some(false));
    assert_eq!(parse_flag("yes"), None);
    assert_eq!(property_name(Property::Description), "description");
}

#[test]
fn update_done_true_sends_only_that_property() {
    let u = parse_update("done", "true").unwrap();
    assert_eq!(u, PartialUpdate::Done(true));
    let r = update_request("tok", 3, &u);
    assert_eq!(r.method, Method::Put);
    assert_eq!(r.path, "/tasks/3");
    assert_eq!(r.body, Body::Json("{\"done\":true}".to_string()));
}

#[test]
fn update_rejects_bad_input() {
    assert_eq!(parse_update("owner", "me"), Err(ValidationError::UnknownProperty));
    assert_eq!(parse_update("title", " "), Err(ValidationError::EmptyTitle));
    assert_eq!(parse_update("done", "maybe"), Err(ValidationError::InvalidFlag));
    assert_eq!(
        parse_update("description", ""),
        Ok(PartialUpdate::Description(String::new()))
    );
}

#[test]
fn update_text_values_are_quoted() {
    let u = PartialUpdate::Title("say \"hi\"".to_string());
    assert_eq!(update_json(&u), "{\"title\":\"say \\\"hi\\\"\"}");
    let u = PartialUpdate::Description("a\nb".to_string());
    assert_eq!(update_json(&u), "{\"description\":\"a\\nb\"}");
    assert_eq!(update_json(&PartialUpdate::Done(false)), "{\"done\":false}");
    let r = update_request("tok", 12, &PartialUpdate::Title("New".to_string()));
    assert_eq!(r.path, "/tasks/12");
    assert_eq!(r.body, Body::Json("{\"title\":\"New\"}".to_string()));
    assert_eq!(json_object("k", "1"), "{\"k\":1}");
}

#[test]
fn status_classes() {
    assert!(is_success(200));
    assert!(is_success(204));
    assert!(is_success(299));
    assert!(!is_success(199));
    assert!(!is_success(300));
    assert!(!is_success(404));
}

#[test]
fn shape_is_chosen_by_status() {
    assert_eq!(expected_shape(Operation::Create, 201), Shape::Task);
    assert_eq!(expected_shape(Operation::List, 200), Shape::TaskList);
    assert_eq!(expected_shape(Operation::View(1), 200), Shape::Task);
    assert_eq!(expected_shape(Operation::Delete(1), 200), Shape::Nothing);
    assert_eq!(expected_shape(Operation::Update(1), 204), Shape::Nothing);
    assert_eq!(expected_shape(Operation::Delete(1), 404), Shape::ErrorPayload);
    assert_eq!(expected_shape(Operation::View(1), 404), Shape::ErrorPayload);
    assert_eq!(expected_shape(Operation::View(1), 500), Shape::Nothing);
}

#[test]
fn create_success_or_rejected() {
    let t = task(5, "Buy milk");
    assert_eq!(interpret(Operation::Create, 201, Decoded::Task(t.clone())), Outcome::Created(t));
    assert_eq!(interpret(Operation::Create, 200, Decoded::Task(task(0, ""))), Outcome::OperationRejected);
    assert_eq!(interpret(Operation::Create, 200, Decoded::Malformed), Outcome::DecodeError);
}

#[test]
fn list_empty_or_counted() {
    let empty = interpret(Operation::List, 200, Decoded::TaskList(Vec::new()));
    assert_eq!(empty, Outcome::NoTasks);
    assert_ne!(empty, Outcome::DecodeError);
    let tasks = vec![task(1, "a"), task(2, "b"), task(3, "c")];
    match interpret(Operation::List, 200, Decoded::TaskList(tasks.clone())) {
        Outcome::Listed(v) => {
            assert_eq!(v.len(), 3);
            assert_eq!(v, tasks);
        }
        other => panic!("unexpected {:?}", other),
    }
    assert_eq!(interpret(Operation::List, 200, Decoded::Malformed), Outcome::DecodeError);
}

#[test]
fn view_not_found_reports_message() {
    let out = interpret(Operation::View(77), 404, Decoded::ErrorPayload(payload("Task not found")));
    assert_eq!(out, Outcome::NotFound("Task not found".to_string()));
    assert_eq!(interpret(Operation::View(77), 404, Decoded::Malformed), Outcome::DecodeError);
    assert_eq!(interpret(Operation::View(77), 404, Decoded::Task(task(77, "x"))), Outcome::DecodeError);
    assert_eq!(interpret(Operation::View(77), 200, Decoded::Task(task(77, ""))), Outcome::OperationRejected);
}

#[test]
fn delete_by_status_only() {
    assert_eq!(
        interpret(Operation::Delete(8), 404, Decoded::ErrorPayload(payload("No such task"))),
        Outcome::NotFound("No such task".to_string())
    );
    assert_eq!(interpret(Operation::Delete(8), 200, Decoded::Skipped), Outcome::Deleted(8));
    assert_eq!(interpret(Operation::Delete(8), 204, Decoded::Malformed), Outcome::Deleted(8));
    assert_eq!(interpret(Operation::Delete(8), 500, Decoded::Skipped), Outcome::ServerError(500));
}

#[test]
fn update_by_status_only() {
    assert_eq!(interpret(Operation::Update(4), 200, Decoded::Skipped), Outcome::Updated(4));
    assert_eq!(interpret(Operation::Update(4), 400, Decoded::Skipped), Outcome::ServerError(400));
    assert_eq!(
        interpret(Operation::Update(4), 404, Decoded::ErrorPayload(payload("gone"))),
        Outcome::NotFound("gone".to_string())
    );
}

#[test]
fn list_entry_matches_view() {
    let tasks = vec![task(1, "a"), task(2, "b")];
    let listed = interpret(Operation::List, 200, Decoded::TaskList(tasks.clone()));
    let viewed = interpret(Operation::View(2), 200, Decoded::Task(tasks[1].clone()));
    match (listed, viewed) {
        (Outcome::Listed(v), Outcome::Viewed(t)) => assert_eq!(v[1], t),
        other => panic!("unexpected {:?}", other),
    }
}

#[test]
fn view_twice_is_identical() {
    let first = interpret(Operation::View(2), 200, Decoded::Task(task(2, "b")));
    let second = interpret(Operation::View(2), 200, Decoded::Task(task(2, "b")));
    assert_eq!(first, second);
    assert_eq!(first, Outcome::Viewed(task(2, "b")));
}

#[test]
fn fatal_outcomes() {
    assert!(Outcome::DecodeError.is_fatal());
    assert!(!Outcome::NoTasks.is_fatal());
    assert!(!Outcome::ServerError(503).is_fatal());
    assert!(task(1, "x").is_usable());
    assert!(!task(1, "").is_usable());
}

#[test]
fn unicode_white_space_is_blank() {
    assert!(is_blank("\u{b}\u{c}"));
    assert!(is_blank("\u{a0}\u{2003}\u{3000}\u{85}"));
    assert!(is_blank_char('\u{2028}'));
    assert!(!is_blank_char('x'));
    assert!(!is_blank_char('\u{200b}'));
    assert_eq!(new_task("\u{b}", ""), Err(ValidationError::EmptyTitle));
    assert_eq!(new_task("\u{a0}\u{c}", "d"), Err(ValidationError::EmptyTitle));
    assert_eq!(parse_update("title", "\u{3000}"), Err(ValidationError::EmptyTitle));
}

#[test]
fn trimming_removes_surrounding_white_space() {
    assert_eq!(trimmed("  title \n"), "title");
    assert_eq!(trimmed("a b"), "a b");
    assert_eq!(trimmed(" \t "), "");
    assert_eq!(trimmed(""), "");
    assert_eq!(trimmed("\u{a0}done\u{2009}"), "done");
}

#[test]
fn property_names_are_trimmed() {
    assert_eq!(parse_property(" title"), Some(Property::Title));
    assert_eq!(parse_property("title \n"), Some(Property::Title));
    assert_eq!(parse_property("\tdone "), Some(Property::Done));
    assert_eq!(parse_property(" owner "), None);
    assert_eq!(parse_flag(" true\n"), Some(true));
    assert_eq!(parse_update(" done ", "false "), Ok(PartialUpdate::Done(false)));
    assert_eq!(parse_update(" description", " keep spaces "), Ok(PartialUpdate::Description(" keep spaces ".to_string())));
}

#[test]
fn list_with_empty_title_is_rejected() {
    let one = vec![task(4, "")];
    assert_eq!(interpret(Operation::List, 200, Decoded::TaskList(one.clone())), Outcome::OperationRejected);
    assert_eq!(interpret(Operation::View(4), 200, Decoded::Task(one[0].clone())), Outcome::OperationRejected);
    let mixed = vec![task(1, "a"), task(2, "")];
    assert_eq!(interpret(Operation::List, 200, Decoded::TaskList(mixed)), Outcome::OperationRejected);
}

#[test]
fn create_form_fields() {
    let nt = new_task("Buy milk", "two litres").unwrap();
    assert_eq!(
        form_fields(&nt),
        vec![
            ("title".to_string(), "Buy milk".to_string()),
            ("description".to_string(), "two litres".to_string()),
        ]
    );
}
