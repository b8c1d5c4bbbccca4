use crud::errors::AppError;
use crud::models::{
    default_page, default_per_page, CreateUserRequest, PaginationQuery, UpdateUserRequest,
    UserResponse, UserRow,
};
use crud::service::{
    list_window, make_page, total_pages, RepoAnswer, RepoCall, ServiceReply, Step, UserCommand,
    UserTask,
};
use crud::validation::{Rule, UserField};

fn row(id: i32, email: &str) -> UserRow {
    UserRow {
        id,
        name: format!("user{}", id),
        email: email.to_string(),
        bio: None,
        created_at: 1_700_000_000_000_000 + id as i64,
        updated_at: 1_700_000_000_000_000 + id as i64,
    }
}

fn create(name: &str, email: &str, bio: Option<&str>) -> CreateUserRequest {
    CreateUserRequest {
        name: name.to_string(),
        email: email.to_string(),
        bio: bio.map(|b| b.to_string()),
    }
}

fn update(name: Option<&str>, email: Option<&str>, bio: Option<&str>) -> UpdateUserRequest {
    UpdateUserRequest {
        name: name.map(|s| s.to_string()),
        email: email.map(|s| s.to_string()),
        bio: bio.map(|s| s.to_string()),
    }
}

fn error_of(step: Step) -> AppError {
    match step {
        Step::Reply(Err(e)) => e,
        _ => panic!("expected an error reply"),
    }
}

fn user_of(step: Step) -> UserResponse {
    match step {
        Step::Reply(Ok(ServiceReply::User(u))) => u,
        _ => panic!("expected a user reply"),
    }
}

#[test]
fn errors_map_to_statuses_and_messages() {
    let cases = vec![
        (AppError::NotFound("User 1 not found".to_string()), 404, "User 1 not found"),
        (AppError::Validation("bad".to_string()), 400, "bad"),
        (AppError::Conflict("dup".to_string()), 409, "dup"),
        (AppError::Database("connection refused".to_string()), 500, "A database error occurred"),
        (AppError::Internal("Failed to fetch users".to_string()), 500, "An internal error occurred"),
    ];
    for (e, status, message) in cases {
        assert_eq!(e.status_code(), status);
        assert_eq!(e.public_message(), message);
        let (s, m) = e.into_response_parts();
        assert_eq!(s, status);
        assert_eq!(m, message);
    }
}

#[test]
fn errors_describe_themselves() {
    assert_eq!(AppError::NotFound("x".to_string()).describe(), "Resource not found: x");
    assert_eq!(AppError::Validation("x".to_string()).describe(), "Validation error: x");
    assert_eq!(AppError::Conflict("x".to_string()).describe(), "Conflict: x");
    assert_eq!(AppError::Database("x".to_string()).describe(), "Database error: x");
    assert_eq!(AppError::Internal("x".to_string()).describe(), "Internal error: x");
}

#[test]
fn rows_become_responses_field_by_field() {
    let r = UserRow {
        id: 3,
        name: "Ann".to_string(),
        email: "ann@example.com".to_string(),
        bio: Some("hi".to_string()),
        created_at: 10,
        updated_at: 20,
    };
    let u = UserResponse::from(r);
    assert_eq!(u.id, 3);
    assert_eq!(u.name, "Ann");
    assert_eq!(u.email, "ann@example.com");
    assert_eq!(u.bio.as_deref(), Some("hi"));
    assert_eq!(u.created_at, 10);
    assert_eq!(u.updated_at, 20);
}

#[test]
fn pagination_defaults() {
    assert_eq!(default_page(), 1);
    assert_eq!(default_per_page(), 20);
}

#[test]
fn list_window_caps_and_offsets() {
    assert_eq!(list_window(&PaginationQuery { page: 1, per_page: 20 }), (20, 0));
    assert_eq!(list_window(&PaginationQuery { page: 3, per_page: 20 }), (20, 40));
    assert_eq!(list_window(&PaginationQuery { page: 0, per_page: 20 }), (20, 0));
    assert_eq!(list_window(&PaginationQuery { page: 2, per_page: 500 }), (100, 100));
    assert_eq!(list_window(&PaginationQuery { page: 5, per_page: 0 }), (0, 0));
    assert_eq!(
        list_window(&PaginationQuery { page: u32::MAX, per_page: 100 }),
        (100, (u32::MAX as i64 - 1) * 100)
    );
}

#[test]
fn total_pages_rounds_up() {
    assert_eq!(total_pages(0, 20), 0);
    assert_eq!(total_pages(1, 20), 1);
    assert_eq!(total_pages(40, 20), 2);
    assert_eq!(total_pages(41, 20), 3);
    assert_eq!(total_pages(5, 0), u32::MAX);
    assert_eq!(total_pages(0, 0), 0);
    assert_eq!(total_pages(-4, 20), 0);
    assert_eq!(total_pages(i64::MAX, 1), u32::MAX);
    assert_eq!(total_pages(4_294_967_295, 1), u32::MAX);
    assert_eq!(total_pages(4_294_967_294, 1), 4_294_967_294);
}

#[test]
fn pages_keep_the_requested_size() {
    let q = PaginationQuery { page: 2, per_page: 500 };
    let p = make_page(q, vec![row(1, "a@x.io"), row(2, "b@x.io")], 102);
    assert_eq!(p.data.len(), 2);
    assert_eq!(p.data[0].id, 1);
    assert_eq!(p.data[1].email, "b@x.io");
    assert_eq!(p.page, 2);
    assert_eq!(p.per_page, 500);
    assert_eq!(p.total, 102);
    assert_eq!(p.total_pages, 2);
}

#[test]
fn pages_of_a_listing_cover_its_rows() {
    // 41 rows at 20 a page: pages 1 to 3 start before row 41, page 4 past it.
    let total = 41i64;
    let pages = total_pages(total, 20);
    assert_eq!(pages, 3);
    for page in 1..=pages {
        assert!(list_window(&PaginationQuery { page, per_page: 20 }).1 < total);
    }
    assert!(list_window(&PaginationQuery { page: pages + 1, per_page: 20 }).1 >= total);
}

#[test]
fn list_runs_one_query() {
    let q = PaginationQuery { page: 3, per_page: 10 };
    let (task, step) = UserTask::start(UserCommand::List(q));
    match step {
        Step::Call(RepoCall::FindAll { limit, offset }) => assert_eq!((limit, offset), (10, 20)),
        _ => panic!("expected FindAll"),
    }
    let (task, step) = task.resume(Ok(RepoAnswer::Page(vec![row(21, "u@x.io")], 21)));
    assert!(matches!(task, UserTask::Finished));
    match step {
        Step::Reply(Ok(ServiceReply::Page(p))) => {
            assert_eq!(p.data.len(), 1);
            assert_eq!(p.page, 3);
            assert_eq!(p.per_page, 10);
            assert_eq!(p.total, 21);
            assert_eq!(p.total_pages, 3);
        }
        _ => panic!("expected a page"),
    }
}

#[test]
fn get_finds_or_reports_missing() {
    let (task, step) = UserTask::start(UserCommand::Get(7));
    assert!(matches!(step, Step::Call(RepoCall::FindById(7))));
    let u = user_of(task.resume(Ok(RepoAnswer::Row(Some(row(7, "g@x.io"))))).1);
    assert_eq!(u.id, 7);
    let (task, _) = UserTask::start(UserCommand::Get(7));
    let e = error_of(task.resume(Ok(RepoAnswer::Row(None))).1);
    assert_eq!(e.status_code(), 404);
    assert_eq!(e.public_message(), "User 7 not found");
    let (task, _) = UserTask::start(UserCommand::Get(-3));
    let e = error_of(task.resume(Ok(RepoAnswer::Row(None))).1);
    assert_eq!(e.public_message(), "User -3 not found");
}

#[test]
fn create_checks_the_email_then_inserts() {
    let (task, step) = UserTask::start(UserCommand::Create(create("Ann", "ann@x.io", None)));
    match step {
        Step::Call(RepoCall::FindByEmail(e)) => assert_eq!(e, "ann@x.io"),
        _ => panic!("expected FindByEmail"),
    }
    let (task, step) = task.resume(Ok(RepoAnswer::Row(None)));
    match step {
        Step::Call(RepoCall::Insert(u)) => {
            assert_eq!(u.name, "Ann");
            assert_eq!(u.email, "ann@x.io");
        }
        _ => panic!("expected Insert"),
    }
    let (task, step) = task.resume(Ok(RepoAnswer::Inserted(row(1, "ann@x.io"))));
    assert!(matches!(task, UserTask::Finished));
    assert_eq!(user_of(step).id, 1);
}

#[test]
fn create_with_a_taken_email_is_a_conflict() {
    let (task, _) = UserTask::start(UserCommand::Create(create("Ann", "ann@x.io", None)));
    let (task, step) = task.resume(Ok(RepoAnswer::Row(Some(row(9, "ann@x.io")))));
    assert!(matches!(task, UserTask::Finished));
    let e = error_of(step);
    assert_eq!(e.status_code(), 409);
    assert_eq!(e.public_message(), "A user with email 'ann@x.io' already exists");
}

#[test]
fn update_refuses_another_users_email() {
    let (task, step) = UserTask::start(UserCommand::Update(4, update(None, Some("b@x.io"), None)));
    assert!(matches!(step, Step::Call(RepoCall::FindByEmail(_))));
    let e = error_of(task.resume(Ok(RepoAnswer::Row(Some(row(5, "b@x.io"))))).1);
    assert_eq!(e.status_code(), 409);
    assert_eq!(e.public_message(), "Email 'b@x.io' is already in use");
}

#[test]
fn update_may_keep_its_own_email() {
    let (task, _) = UserTask::start(UserCommand::Update(4, update(Some("New"), Some("b@x.io"), None)));
    let (task, step) = task.resume(Ok(RepoAnswer::Row(Some(row(4, "b@x.io")))));
    match step {
        Step::Call(RepoCall::Update(id, c)) => {
            assert_eq!(id, 4);
            assert_eq!(c.name.as_deref(), Some("New"));
        }
        _ => panic!("expected Update"),
    }
    let u = user_of(task.resume(Ok(RepoAnswer::Row(Some(row(4, "b@x.io"))))).1);
    assert_eq!(u.id, 4);
}

#[test]
fn update_without_email_goes_straight_to_the_store() {
    let (task, step) = UserTask::start(UserCommand::Update(8, update(Some("Z"), None, None)));
    assert!(matches!(step, Step::Call(RepoCall::Update(8, _))));
    let e = error_of(task.resume(Ok(RepoAnswer::Row(None))).1);
    assert_eq!(e.public_message(), "User 8 not found");
}

#[test]
fn delete_reports_missing_users() {
    let (task, step) = UserTask::start(UserCommand::Delete(2));
    assert!(matches!(step, Step::Call(RepoCall::Delete(2))));
    assert!(matches!(task.resume(Ok(RepoAnswer::Deleted(true))).1, Step::Reply(Ok(ServiceReply::Deleted))));
    let (task, _) = UserTask::start(UserCommand::Delete(2));
    let e = error_of(task.resume(Ok(RepoAnswer::Deleted(false))).1);
    assert_eq!(e.status_code(), 404);
    assert_eq!(e.public_message(), "User 2 not found");
}

#[test]
fn store_errors_end_the_request() {
    let (task, _) = UserTask::start(UserCommand::Create(create("Ann", "ann@x.io", None)));
    let (task, step) = task.resume(Err(AppError::Internal("Failed to fetch user by email".to_string())));
    assert!(matches!(task, UserTask::Finished));
    let e = error_of(step);
    assert_eq!(e.status_code(), 500);
    assert_eq!(e.describe(), "Internal error: Failed to fetch user by email");
}

#[test]
fn valid_create_passes() {
    assert!(create("Ann", "ann@example.com", Some("hello")).validate().is_ok());
    assert!(create(&"n".repeat(100), "a@b.co", Some(&"b".repeat(500))).validate().is_ok());
}

#[test]
fn create_reports_each_broken_rule_in_order() {
    let errs = create("", "not-an-email", Some(&"b".repeat(501))).validate().err().unwrap();
    assert_eq!(errs.len(), 3);
    assert_eq!(errs[0].field, UserField::Name);
    assert_eq!(errs[0].rule, Rule::Length { min: Some(1), max: Some(100) });
    assert_eq!(errs[0].message.as_deref(), Some("Name must be 1-100 characters"));
    assert_eq!(errs[0].value, "");
    assert_eq!(errs[1].field, UserField::Email);
    assert_eq!(errs[1].rule, Rule::Email);
    assert_eq!(errs[1].message.as_deref(), Some("Invalid email address"));
    assert_eq!(errs[1].value, "not-an-email");
    assert_eq!(errs[2].field, UserField::Bio);
    assert_eq!(errs[2].rule, Rule::Length { min: None, max: Some(500) });
    assert_eq!(errs[2].message.as_deref(), Some("Bio must be at most 500 characters"));
}

#[test]
fn names_are_counted_in_characters() {
    assert!(create(&"é".repeat(100), "a@b.co", None).validate().is_ok());
    let errs = create(&"é".repeat(101), "a@b.co", None).validate().err().unwrap();
    assert_eq!(errs.len(), 1);
    assert_eq!(errs[0].field, UserField::Name);
}

#[test]
fn update_checks_only_given_fields() {
    assert!(update(None, None, None).validate().is_ok());
    assert!(update(Some("Bo"), Some("bo@x.io"), Some("")).validate().is_ok());
    let errs = update(None, Some("nope"), None).validate().err().unwrap();
    assert_eq!(errs.len(), 1);
    assert_eq!(errs[0].field, UserField::Email);
    assert!(errs[0].message.is_none());
    let errs = update(Some(""), None, None).validate().err().unwrap();
    assert_eq!(errs[0].field, UserField::Name);
    assert!(errs[0].message.is_none());
}

#[test]
fn fields_and_rules_have_names() {
    assert_eq!(UserField::Name.name(), "name");
    assert_eq!(UserField::Email.name(), "email");
    assert_eq!(UserField::Bio.name(), "bio");
    assert_eq!(Rule::Email.code(), "email");
    assert_eq!(Rule::Length { min: None, max: Some(1) }.code(), "length");
}

/// A store of rows kept in memory, answering calls as the SQL queries do.
fn answer(store: &mut Vec<UserRow>, next_id: &mut i32, call: RepoCall) -> RepoAnswer {
    match call {
        RepoCall::FindAll { limit, offset } => {
            let rows: Vec<UserRow> = store
                .iter()
                .skip(offset as usize)
                .take(limit as usize)
                .map(|r| row(r.id, &r.email))
                .collect();
            RepoAnswer::Page(rows, store.len() as i64)
        }
        RepoCall::FindById(id) => {
            RepoAnswer::Row(store.iter().find(|r| r.id == id).map(|r| row(r.id, &r.email)))
        }
        RepoCall::FindByEmail(e) => {
            RepoAnswer::Row(store.iter().find(|r| r.email == e).map(|r| row(r.id, &r.email)))
        }
        RepoCall::Insert(u) => {
            *next_id += 1;
            store.push(row(*next_id, &u.email));
            RepoAnswer::Inserted(row(*next_id, &u.email))
        }
        RepoCall::Update(id, c) => match store.iter_mut().find(|r| r.id == id) {
            Some(r) => {
                if let Some(e) = c.email {
                    r.email = e;
                }
                RepoAnswer::Row(Some(row(r.id, &r.email)))
            }
            None => RepoAnswer::Row(None),
        },
        RepoCall::Delete(id) => {
            let before = store.len();
            store.retain(|r| r.id != id);
            RepoAnswer::Deleted(store.len() < before)
        }
    }
}

fn run(store: &mut Vec<UserRow>, next_id: &mut i32, command: UserCommand) -> Step {
    let (mut task, mut step) = UserTask::start(command);
    let mut calls = 0;
    while let Step::Call(call) = step {
        calls += 1;
        assert!(calls <= 2);
        let a = answer(store, next_id, call);
        let (t, s) = task.resume(Ok(a));
        task = t;
        step = s;
    }
    assert!(matches!(task, UserTask::Finished));
    step
}

#[test]
fn emails_stay_unique_in_a_store() {
    let mut store = Vec::new();
    let mut next_id = 0;
    let s = run(&mut store, &mut next_id, UserCommand::Create(create("A", "a@x.io", None)));
    assert_eq!(user_of(s).id, 1);
    let s = run(&mut store, &mut next_id, UserCommand::Create(create("B", "b@x.io", None)));
    assert_eq!(user_of(s).id, 2);
    let s = run(&mut store, &mut next_id, UserCommand::Create(create("A2", "a@x.io", None)));
    assert_eq!(error_of(s).status_code(), 409);
    let s = run(&mut store, &mut next_id, UserCommand::Update(2, update(None, Some("a@x.io"), None)));
    assert_eq!(error_of(s).status_code(), 409);
    let s = run(&mut store, &mut next_id, UserCommand::Update(2, update(None, Some("b@x.io"), None)));
    assert_eq!(user_of(s).email, "b@x.io");
    let s = run(&mut store, &mut next_id, UserCommand::Update(2, update(None, Some("c@x.io"), None)));
    assert_eq!(user_of(s).email, "c@x.io");
    let mut emails: Vec<String> = store.iter().map(|r| r.email.clone()).collect();
    emails.sort();
    emails.dedup();
    assert_eq!(emails.len(), store.len());
    assert_eq!(store.len(), 2);
    let s = run(&mut store, &mut next_id, UserCommand::Delete(1));
    assert!(matches!(s, Step::Reply(Ok(ServiceReply::Deleted))));
    let s = run(&mut store, &mut next_id, UserCommand::Get(1));
    assert_eq!(error_of(s).public_message(), "User 1 not found");
    match run(&mut store, &mut next_id, UserCommand::List(PaginationQuery { page: 1, per_page: 20 })) {
        Step::Reply(Ok(ServiceReply::Page(p))) => {
            assert_eq!(p.total, 1);
            assert_eq!(p.total_pages, 1);
            assert_eq!(p.data[0].email, "c@x.io");
        }
        _ => panic!("expected a page"),
    }
}
