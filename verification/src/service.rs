//! The user service: what each request asks of the user store, and what it
//! answers from what the store gives back.
//!
//! A request runs as a small state machine. `UserTask::start` turns a
//! command into the first call to make on the store; `UserTask::resume`
//! takes the store's answer (or its error) and gives either the next call
//! or the reply. The store itself (a database) is driven by the caller.

use vstd::prelude::*;
use vstd::string::*;
use crate::errors::AppError;
use crate::models::{
    response_of, CreateUserRequest, PaginatedResponse, PaginationQuery, UpdateUserRequest,
    UserResponse, UserRow,
};
use crate::text::{i32_text, int_text};

verus! {

/// The most users that one page holds, whatever page size is asked for.
pub const MAX_PER_PAGE: u32 = 100;

/// The number of rows a page fetches: the size asked for, at most
/// `MAX_PER_PAGE`.
pub open spec fn page_limit(q: PaginationQuery) -> int {
    if q.per_page <= MAX_PER_PAGE {
        q.per_page as int
    } else {
        MAX_PER_PAGE as int
    }
}

/// The number of rows before the page; page 0 is read as page 1.
pub open spec fn page_offset(q: PaginationQuery) -> int {
    (if q.page == 0 {
        0
    } else {
        q.page - 1
    }) * page_limit(q)
}

/// The number of pages of `per_page` rows that `total` rows fill, the last
/// one possibly partly: no pages for no rows, and `u32::MAX` where the
/// count does not fit or the page size is zero.
pub open spec fn total_pages_of(total: int, per_page: int) -> int {
    if total <= 0 {
        0
    } else if per_page <= 0 {
        u32::MAX as int
    } else {
        let pages = total / per_page + (if total % per_page == 0 {
            0int
        } else {
            1int
        });
        if pages > u32::MAX {
            u32::MAX as int
        } else {
            pages
        }
    }
}

/// The size and start of the page that `query` asks for.
pub fn list_window(query: &PaginationQuery) -> (w: (i64, i64))
    ensures
        w.0 == page_limit(*query),
        w.1 == page_offset(*query),
{
    let per_page: u32 = if query.per_page <= MAX_PER_PAGE {
        query.per_page
    } else {
        MAX_PER_PAGE
    };
    let before: u32 = if query.page == 0 {
        0
    } else {
        query.page - 1
    };
    let limit = per_page as i64;
    assert((before as int) * (per_page as int) <= (u32::MAX as int) * 100) by (nonlinear_arith)
        requires
            before <= u32::MAX,
            per_page <= 100,
    ;
    assert(0 <= (before as int) * (per_page as int)) by (nonlinear_arith)
        requires
            before >= 0,
            per_page >= 0,
    ;
    let offset = (before as i64) * limit;
    (limit, offset)
}

/// The number of pages that `total` rows fill at `per_page` rows a page.
pub fn total_pages(total: i64, per_page: i64) -> (n: u32)
    requires
        per_page >= 0,
    ensures
        n == total_pages_of(total as int, per_page as int),
{
    if total <= 0 {
        0
    } else if per_page == 0 {
        u32::MAX
    } else {
        let whole = total / per_page;
        if whole >= 0xffff_ffff {
            u32::MAX
        } else if total % per_page == 0 {
            whole as u32
        } else {
            (whole + 1) as u32
        }
    }
}

/// Whether `p` is the page that `query` gets from `rows` of `total`: the
/// rows as responses, the page and size as asked, the total, and the number
/// of pages at the size actually used.
pub open spec fn is_page(
    query: PaginationQuery,
    rows: Seq<UserRow>,
    total: i64,
    p: PaginatedResponse<UserResponse>,
) -> bool {
    &&& p.data@ == rows.map_values(|r: UserRow| response_of(r))
    &&& p.page == query.page
    &&& p.per_page == query.per_page
    &&& p.total == total
    &&& p.total_pages == total_pages_of(total as int, page_limit(query))
}

/// The page that `query` gets from the store's `rows` of `total` users.
pub fn make_page(query: PaginationQuery, rows: Vec<UserRow>, total: i64) -> (p: PaginatedResponse<
    UserResponse,
>)
    ensures
        is_page(query, rows@, total, p),
{
    let ghost all = rows@;
    let mut rest = rows;
    let mut data: Vec<UserResponse> = Vec::new();
    while rest.len() > 0
        invariant
            data@.len() + rest@.len() == all.len(),
            rest@ == all.skip(data@.len() as int),
            data@ == all.take(data@.len() as int).map_values(|r: UserRow| response_of(r)),
        decreases rest@.len(),
    {
        let row = rest.remove(0);
        proof {
            assert(row == all[data@.len() as int]);
        }
        data.push(UserResponse::from(row));
        assert(rest@ =~= all.skip(data@.len() as int));
        assert(data@ =~= all.take(data@.len() as int).map_values(|r: UserRow| response_of(r)));
    }
    assert(all.take(data@.len() as int) =~= all);
    let (limit, _) = list_window(&query);
    PaginatedResponse {
        data,
        page: query.page,
        per_page: query.per_page,
        total,
        total_pages: total_pages(total, limit),
    }
}


/// A request to the user service.
pub enum UserCommand {
    /// List one page of users.
    List(PaginationQuery),
    /// Fetch the user with this id.
    Get(i32),
    /// Create a user; its email must not be in use.
    Create(CreateUserRequest),
    /// Change the user with this id; a new email must not be another
    /// user's.
    Update(i32, UpdateUserRequest),
    /// Delete the user with this id.
    Delete(i32),
}

/// A call on the user store.
pub enum RepoCall {
    /// `limit` users, newest first, after skipping `offset`; and the count
    /// of all users.
    FindAll { limit: i64, offset: i64 },
    FindById(i32),
    FindByEmail(String),
    /// Insert a user and give back the stored row.
    Insert(CreateUserRequest),
    /// Set the fields that the request gives, and give back the row, if the
    /// user exists.
    Update(i32, UpdateUserRequest),
    /// Delete a user; tells whether a row was deleted.
    Delete(i32),
}

/// The store's answer to a call.
pub enum RepoAnswer {
    /// To `FindAll`: the rows and the count of all users.
    Page(Vec<UserRow>, i64),
    /// To `FindById`, `FindByEmail` and `Update`: the row, if there is one.
    Row(Option<UserRow>),
    /// To `Insert`: the stored row.
    Inserted(UserRow),
    /// To `Delete`: whether a row was deleted.
    Deleted(bool),
}

/// The service's reply to a command that succeeded.
pub enum ServiceReply {
    Page(PaginatedResponse<UserResponse>),
    User(UserResponse),
    Deleted,
}

/// What the service does next: call the store, or reply.
pub enum Step {
    Call(RepoCall),
    Reply(Result<ServiceReply, AppError>),
}

/// Where a request stands: which answer it waits for, with what it still
/// needs to know of the command.
pub enum UserTask {
    AwaitingPage(PaginationQuery),
    AwaitingUser(i32),
    AwaitingEmailForCreate(CreateUserRequest),
    AwaitingInsert,
    AwaitingEmailForUpdate(i32, UpdateUserRequest),
    AwaitingUpdate(i32),
    AwaitingDelete(i32),
    Finished,
}

/// The message of the error for a user that does not exist.
pub open spec fn not_found_message(id: i32) -> Seq<char> {
    "User "@ + int_text(id as int) + " not found"@
}

/// The message of the error for creating a user with an email in use.
pub open spec fn create_conflict_message(email: Seq<char>) -> Seq<char> {
    "A user with email '"@ + email + "' already exists"@
}

/// The message of the error for changing a user's email to another user's.
pub open spec fn update_conflict_message(email: Seq<char>) -> Seq<char> {
    "Email '"@ + email + "' is already in use"@
}

/// Whether `step` replies with a `NotFound` error with `message`.
pub open spec fn replies_not_found(step: Step, message: Seq<char>) -> bool {
    step matches Step::Reply(Err(AppError::NotFound(m))) && m@ == message
}

/// Whether `step` replies with a `Conflict` error with `message`.
pub open spec fn replies_conflict(step: Step, message: Seq<char>) -> bool {
    step matches Step::Reply(Err(AppError::Conflict(m))) && m@ == message
}

/// The reply to a lookup of user `id` that found `row`.
pub open spec fn replies_found(id: i32, row: Option<UserRow>, step: Step) -> bool {
    match row {
        Some(r) => step == Step::Reply(Ok(ServiceReply::User(response_of(r)))),
        None => replies_not_found(step, not_found_message(id)),
    }
}

/// How many more answers a task waits for at most.
pub open spec fn pending(task: UserTask) -> nat {
    match task {
        UserTask::AwaitingEmailForCreate(_) => 2,
        UserTask::AwaitingEmailForUpdate(_, _) => 2,
        UserTask::Finished => 0,
        _ => 1,
    }
}

/// A task that waits to check an update's new email holds that email.
pub open spec fn well_formed(task: UserTask) -> bool {
    task matches UserTask::AwaitingEmailForUpdate(_, c) ==> c.email is Some
}

/// Whether `answer` is of the kind that `task` waits for.
pub open spec fn expects(task: UserTask, answer: RepoAnswer) -> bool {
    match task {
        UserTask::AwaitingPage(_) => answer is Page,
        UserTask::AwaitingUser(_) => answer is Row,
        UserTask::AwaitingEmailForCreate(_) => answer is Row,
        UserTask::AwaitingInsert => answer is Inserted,
        UserTask::AwaitingEmailForUpdate(_, _) => answer is Row,
        UserTask::AwaitingUpdate(_) => answer is Row,
        UserTask::AwaitingDelete(_) => answer is Deleted,
        UserTask::Finished => false,
    }
}

/// The first call that `command` makes, and the task that waits for its
/// answer.
pub open spec fn started(command: UserCommand, task: UserTask, step: Step) -> bool {
    match command {
        UserCommand::List(q) => task == UserTask::AwaitingPage(q) && step == Step::Call(
            RepoCall::FindAll { limit: page_limit(q) as i64, offset: page_offset(q) as i64 },
        ),
        UserCommand::Get(id) => task == UserTask::AwaitingUser(id) && step == Step::Call(
            RepoCall::FindById(id),
        ),
        UserCommand::Create(u) => task == UserTask::AwaitingEmailForCreate(u) && step
            == Step::Call(RepoCall::FindByEmail(u.email)),
        UserCommand::Update(id, c) => match c.email {
            Some(e) => task == UserTask::AwaitingEmailForUpdate(id, c) && step == Step::Call(
                RepoCall::FindByEmail(e),
            ),
            None => task == UserTask::AwaitingUpdate(id) && step == Step::Call(
                RepoCall::Update(id, c),
            ),
        },
        UserCommand::Delete(id) => task == UserTask::AwaitingDelete(id) && step == Step::Call(
            RepoCall::Delete(id),
        ),
    }
}

/// What a task does with the store's answer: a store error ends the
/// request with that error; otherwise the command's rule decides.
pub open spec fn resumed(
    task: UserTask,
    answer: Result<RepoAnswer, AppError>,
    next: UserTask,
    step: Step,
) -> bool {
    match answer {
        Err(e) => next == UserTask::Finished && step == Step::Reply(Err(e)),
        Ok(a) => match task {
            UserTask::AwaitingPage(q) => next == UserTask::Finished && match a {
                RepoAnswer::Page(rows, total) => step matches Step::Reply(
                    Ok(ServiceReply::Page(p)),
                ) && is_page(q, rows@, total, p),
                _ => false,
            },
            UserTask::AwaitingUser(id) => next == UserTask::Finished && match a {
                RepoAnswer::Row(row) => replies_found(id, row, step),
                _ => false,
            },
            UserTask::AwaitingEmailForCreate(u) => match a {
                RepoAnswer::Row(Some(_)) => next == UserTask::Finished && replies_conflict(
                    step,
                    create_conflict_message(u.email@),
                ),
                RepoAnswer::Row(None) => next == UserTask::AwaitingInsert && step == Step::Call(
                    RepoCall::Insert(u),
                ),
                _ => false,
            },
            UserTask::AwaitingInsert => next == UserTask::Finished && match a {
                RepoAnswer::Inserted(row) => step == Step::Reply(
                    Ok(ServiceReply::User(response_of(row))),
                ),
                _ => false,
            },
            UserTask::AwaitingEmailForUpdate(id, c) => match a {
                RepoAnswer::Row(found) => if found matches Some(existing) && existing.id != id {
                    next == UserTask::Finished && replies_conflict(
                        step,
                        update_conflict_message(c.email.unwrap()@),
                    )
                } else {
                    next == UserTask::AwaitingUpdate(id) && step == Step::Call(
                        RepoCall::Update(id, c),
                    )
                },
                _ => false,
            },
            UserTask::AwaitingUpdate(id) => next == UserTask::Finished && match a {
                RepoAnswer::Row(row) => replies_found(id, row, step),
                _ => false,
            },
            UserTask::AwaitingDelete(id) => next == UserTask::Finished && match a {
                RepoAnswer::Deleted(true) => step == Step::Reply(Ok(ServiceReply::Deleted)),
                RepoAnswer::Deleted(false) => replies_not_found(step, not_found_message(id)),
                _ => false,
            },
            UserTask::Finished => false,
        },
    }
}

fn not_found(id: i32) -> (e: AppError)
    ensures
        e matches AppError::NotFound(m) && m@ == not_found_message(id),
{
    let m = String::from_str("User ").concat(i32_text(id).as_str()).concat(" not found");
    AppError::NotFound(m)
}

fn found_or_not(id: i32, row: Option<UserRow>) -> (step: Step)
    ensures
        replies_found(id, row, step),
{
    match row {
        Some(r) => Step::Reply(Ok(ServiceReply::User(UserResponse::from(r)))),
        None => Step::Reply(Err(not_found(id))),
    }
}

impl UserTask {
    /// Starts `command`: the first call it makes on the store.
    pub fn start(command: UserCommand) -> (r: (UserTask, Step))
        ensures
            started(command, r.0, r.1),
            well_formed(r.0),
            r.1 is Call,
            1 <= pending(r.0) <= 2,
    {
        match command {
            UserCommand::List(q) => {
                let (limit, offset) = list_window(&q);
                (UserTask::AwaitingPage(q), Step::Call(RepoCall::FindAll { limit, offset }))
            },
            UserCommand::Get(id) => (UserTask::AwaitingUser(id), Step::Call(RepoCall::FindById(id))),
            UserCommand::Create(u) => {
                let email = u.email.clone();
                (UserTask::AwaitingEmailForCreate(u), Step::Call(RepoCall::FindByEmail(email)))
            },
            UserCommand::Update(id, c) => {
                match &c.email {
                    Some(e) => {
                        let email = e.clone();
                        (
                            UserTask::AwaitingEmailForUpdate(id, c),
                            Step::Call(RepoCall::FindByEmail(email)),
                        )
                    },
                    None => (UserTask::AwaitingUpdate(id), Step::Call(RepoCall::Update(id, c))),
                }
            },
            UserCommand::Delete(id) => (UserTask::AwaitingDelete(id), Step::Call(RepoCall::Delete(id))),
        }
    }

    /// Goes on with the store's answer to the task's last call: the next
    /// call, or the reply. Each answer brings the request closer to its
    /// reply; a task that replies is finished.
    pub fn resume(self, answer: Result<RepoAnswer, AppError>) -> (r: (UserTask, Step))
        requires
            !(self is Finished),
            well_formed(self),
            answer matches Ok(a) ==> expects(self, a),
        ensures
            resumed(self, answer, r.0, r.1),
            well_formed(r.0),
            pending(r.0) < pending(self),
            r.1 is Reply <==> r.0 is Finished,
    {
        let a = match answer {
            Err(e) => return (UserTask::Finished, Step::Reply(Err(e))),
            Ok(a) => a,
        };
        match self {
            UserTask::AwaitingPage(q) => match a {
                RepoAnswer::Page(rows, total) => (
                    UserTask::Finished,
                    Step::Reply(Ok(ServiceReply::Page(make_page(q, rows, total)))),
                ),
                _ => vstd::pervasive::unreached(),
            },
            UserTask::AwaitingUser(id) => match a {
                RepoAnswer::Row(row) => (UserTask::Finished, found_or_not(id, row)),
                _ => vstd::pervasive::unreached(),
            },
            UserTask::AwaitingEmailForCreate(u) => match a {
                RepoAnswer::Row(Some(_)) => {
                    let m = String::from_str("A user with email '").concat(u.email.as_str()).concat(
                        "' already exists",
                    );
                    (UserTask::Finished, Step::Reply(Err(AppError::Conflict(m))))
                },
                _ => (UserTask::AwaitingInsert, Step::Call(RepoCall::Insert(u))),
            },
            UserTask::AwaitingInsert => match a {
                RepoAnswer::Inserted(row) => (
                    UserTask::Finished,
                    Step::Reply(Ok(ServiceReply::User(UserResponse::from(row)))),
                ),
                _ => vstd::pervasive::unreached(),
            },
            UserTask::AwaitingEmailForUpdate(id, c) => {
                let taken = match &a {
                    RepoAnswer::Row(Some(existing)) => existing.id != id,
                    _ => false,
                };
                if taken {
                    let email = match &c.email {
                        Some(e) => e.clone(),
                        None => vstd::pervasive::unreached(),
                    };
                    let m = String::from_str("Email '").concat(email.as_str()).concat(
                        "' is already in use",
                    );
                    (UserTask::Finished, Step::Reply(Err(AppError::Conflict(m))))
                } else {
                    (UserTask::AwaitingUpdate(id), Step::Call(RepoCall::Update(id, c)))
                }
            },
            UserTask::AwaitingUpdate(id) => match a {
                RepoAnswer::Row(row) => (UserTask::Finished, found_or_not(id, row)),
                _ => vstd::pervasive::unreached(),
            },
            UserTask::AwaitingDelete(id) => match a {
                RepoAnswer::Deleted(deleted) => {
                    if deleted {
                        (UserTask::Finished, Step::Reply(Ok(ServiceReply::Deleted)))
                    } else {
                        (UserTask::Finished, Step::Reply(Err(not_found(id))))
                    }
                },
                _ => vstd::pervasive::unreached(),
            },
            UserTask::Finished => vstd::pervasive::unreached(),
        }
    }
}

/// Emails stay unique on create: a create request inserts only after the
/// lookup of its own email found no user, and then inserts exactly the
/// request; a lookup that finds a user ends it with a `Conflict`.
pub proof fn law_create_inserts_only_unused_email(
    user: CreateUserRequest,
    task: UserTask,
    first: Step,
    answer: Result<RepoAnswer, AppError>,
    next: UserTask,
    second: Step,
)
    requires
        started(UserCommand::Create(user), task, first),
        resumed(task, answer, next, second),
    ensures
        first == Step::Call(RepoCall::FindByEmail(user.email)),
        second matches Step::Call(RepoCall::Insert(u)) ==> answer == Ok::<RepoAnswer, AppError>(
            RepoAnswer::Row(None),
        ) && u == user,
        answer matches Ok(RepoAnswer::Row(Some(_))) ==> replies_conflict(
            second,
            create_conflict_message(user.email@),
        ) && next is Finished,
{
}

/// Emails stay unique on update: a new email that the lookup finds on
/// another user ends the request with a `Conflict` and no update; found on
/// the same user, or not found, it lets the update go ahead.
pub proof fn law_update_keeps_emails_unique(
    id: i32,
    changes: UpdateUserRequest,
    task: UserTask,
    first: Step,
    found: Option<UserRow>,
    next: UserTask,
    second: Step,
)
    requires
        changes.email is Some,
        started(UserCommand::Update(id, changes), task, first),
        resumed(task, Ok(RepoAnswer::Row(found)), next, second),
    ensures
        first == Step::Call(RepoCall::FindByEmail(changes.email.unwrap())),
        (found matches Some(other) && other.id != id) ==> replies_conflict(
            second,
            update_conflict_message(changes.email.unwrap()@),
        ) && next is Finished,
        !(found matches Some(other) && other.id != id) ==> second == Step::Call(
            RepoCall::Update(id, changes),
        ),
{
}

/// An update that changes no email goes straight to the store.
pub proof fn law_update_without_email_skips_lookup(
    id: i32,
    changes: UpdateUserRequest,
    task: UserTask,
    first: Step,
)
    requires
        changes.email is None,
        started(UserCommand::Update(id, changes), task, first),
    ensures
        first == Step::Call(RepoCall::Update(id, changes)),
        task == UserTask::AwaitingUpdate(id),
{
}

/// A store error ends any request at once, with that very error.
pub proof fn law_store_errors_pass_through(
    task: UserTask,
    error: AppError,
    next: UserTask,
    step: Step,
)
    requires
        resumed(task, Err(error), next, step),
    ensures
        step == Step::Reply(Err::<ServiceReply, AppError>(error)),
        next is Finished,
{
}

/// A user that the store does not have is answered `NotFound`, with status
/// 404, by get, update and delete alike.
pub proof fn law_missing_user_is_not_found(
    command: UserCommand,
    id: i32,
    task: UserTask,
    first: Step,
    answer: RepoAnswer,
    next: UserTask,
    step: Step,
)
    requires
        command == UserCommand::Get(id) || command == UserCommand::Delete(id) || (
        command matches UserCommand::Update(i, c) && i == id && c.email is None),
        started(command, task, first),
        answer == (if command is Delete {
            RepoAnswer::Deleted(false)
        } else {
            RepoAnswer::Row(None)
        }),
        resumed(task, Ok(answer), next, step),
    ensures
        replies_not_found(step, not_found_message(id)),
        step matches Step::Reply(Err(e)) && e.spec_status() == crate::errors::STATUS_NOT_FOUND,
{
}

/// The users' emails, by id, as the store holds them.
pub type EmailsById = Map<i32, Seq<char>>;

/// No two users share an email.
pub open spec fn emails_unique(store: EmailsById) -> bool {
    forall|a: i32, b: i32|
        #![trigger store[a], store[b]]
        store.contains_key(a) && store.contains_key(b) && a != b ==> store[a] != store[b]
}

/// Whether `found` is a true answer of `store` to a lookup of `email`.
pub open spec fn lookup_answers(store: EmailsById, email: Seq<char>, found: Option<UserRow>) -> bool {
    match found {
        Some(r) => store.contains_key(r.id) && store[r.id] == email,
        None => forall|k: i32| store.contains_key(k) ==> store[k] != email,
    }
}

/// The emails after the store inserts `user` under the new id `id`.
pub open spec fn after_insert(store: EmailsById, id: i32, user: CreateUserRequest) -> EmailsById {
    store.insert(id, user.email@)
}

/// The emails after the store applies `changes` to user `id`: an email
/// that the changes give replaces the user's; a missing user changes
/// nothing.
pub open spec fn after_update(store: EmailsById, id: i32, changes: UpdateUserRequest) -> EmailsById {
    if store.contains_key(id) {
        match changes.email {
            Some(e) => store.insert(id, e@),
            None => store,
        }
    } else {
        store
    }
}

/// Emails stay unique in the store: if they are unique before a create,
/// the store answers the email lookup truly, and the insert goes under a
/// new id, they are unique after it.
pub proof fn law_create_keeps_store_emails_unique(
    store: EmailsById,
    user: CreateUserRequest,
    task: UserTask,
    first: Step,
    found: Option<UserRow>,
    next: UserTask,
    second: Step,
    new_id: i32,
)
    requires
        emails_unique(store),
        started(UserCommand::Create(user), task, first),
        lookup_answers(store, user.email@, found),
        resumed(task, Ok(RepoAnswer::Row(found)), next, second),
        second matches Step::Call(RepoCall::Insert(_)),
        !store.contains_key(new_id),
    ensures
        second == Step::Call(RepoCall::Insert(user)),
        emails_unique(after_insert(store, new_id, user)),
{
    let after = after_insert(store, new_id, user);
    assert forall|a: i32, b: i32|
        #![trigger after[a], after[b]]
        after.contains_key(a) && after.contains_key(b) && a != b implies after[a] != after[b] by {
        if a != new_id && b != new_id {
            assert(store[a] != store[b]);
        } else if a == new_id {
            assert(store.contains_key(b));
        } else {
            assert(store.contains_key(a));
        }
    }
}

/// Emails stay unique in the store on update: if they are unique before,
/// the store answers the lookup of a new email truly, and the update goes
/// ahead, they are unique after it.
pub proof fn law_update_keeps_store_emails_unique(
    store: EmailsById,
    id: i32,
    changes: UpdateUserRequest,
    task: UserTask,
    first: Step,
    found: Option<UserRow>,
    next: UserTask,
    second: Step,
)
    requires
        emails_unique(store),
        started(UserCommand::Update(id, changes), task, first),
        changes.email matches Some(e) ==> lookup_answers(store, e@, found) && resumed(
            task,
            Ok(RepoAnswer::Row(found)),
            next,
            second,
        ) && second matches Step::Call(RepoCall::Update(_, _)),
    ensures
        emails_unique(after_update(store, id, changes)),
{
    if store.contains_key(id) {
        if let Some(e) = changes.email {
            let after = store.insert(id, e@);
            assert(!(found matches Some(other) && other.id != id));
            assert forall|a: i32, b: i32|
                #![trigger after[a], after[b]]
                after.contains_key(a) && after.contains_key(b) && a != b implies after[a]
                != after[b] by {
                if a != id && b != id {
                    assert(store[a] != store[b]);
                } else if a == id {
                    assert(store[b] != e@);
                } else {
                    assert(store[a] != e@);
                }
            }
        }
    }
}

/// The pages of a listing are the non-empty ones: with a page size of 1 to
/// 100, every page from 1 to `total_pages` starts before the last row, and
/// the page after it starts past it.
pub proof fn law_pages_cover_rows(query: PaginationQuery, total: i64)
    requires
        1 <= query.per_page <= MAX_PER_PAGE,
        total >= 0,
        total_pages_of(total as int, page_limit(query)) < u32::MAX,
    ensures
        1 <= query.page <= total_pages_of(total as int, page_limit(query)) ==> page_offset(query)
            < total,
        query.page == total_pages_of(total as int, page_limit(query)) + 1 ==> page_offset(query)
            >= total,
{
    let n = page_limit(query);
    let t = total as int;
    let p = query.page as int;
    assert(n == query.per_page);
    if t > 0 {
        let q = t / n;
        let r = t % n;
        assert(t == q * n + r && 0 <= r < n) by (nonlinear_arith)
            requires
                n > 0,
                q == t / n,
                r == t % n,
        ;
        let pages = total_pages_of(t, n);
        assert(pages == q + (if r == 0 {
            0int
        } else {
            1int
        }));
        if 1 <= p <= pages {
            assert((p - 1) * n < t) by (nonlinear_arith)
                requires
                    1 <= p <= pages,
                    pages == q + (if r == 0 {
                        0int
                    } else {
                        1int
                    }),
                    t == q * n + r,
                    0 <= r < n,
                    n > 0,
            ;
        }
        if p == pages + 1 {
            assert((p - 1) * n >= t) by (nonlinear_arith)
                requires
                    p == pages + 1,
                    pages == q + (if r == 0 {
                        0int
                    } else {
                        1int
                    }),
                    t == q * n + r,
                    0 <= r < n,
                    n > 0,
            ;
        }
    }
}


/// What a listing's page holds, stated on its inputs: every row given, in
/// order and column by column; the page and size that were asked for; the
/// total; and as the page count, the number of pages of `n` rows that the
/// total fills, `n` being the size actually used (the size asked for, at
/// most 100). So page `total_pages` starts before the last row and the page
/// after it starts at or past it (`total_pages == ceil(total / n)`), up to
/// `u32::MAX`; no rows give no pages; a size of 0 gives `u32::MAX` pages
/// for a non-empty total.
pub proof fn law_page_contents(
    query: PaginationQuery,
    rows: Seq<UserRow>,
    total: i64,
    p: PaginatedResponse<UserResponse>,
)
    requires
        is_page(query, rows, total, p),
    ensures
        p.data@.len() == rows.len(),
        forall|i: int|
            0 <= i < rows.len() ==> {
                &&& (#[trigger] p.data@[i]).id == rows[i].id
                &&& p.data@[i].name == rows[i].name
                &&& p.data@[i].email == rows[i].email
                &&& p.data@[i].bio == rows[i].bio
                &&& p.data@[i].created_at == rows[i].created_at
                &&& p.data@[i].updated_at == rows[i].updated_at
            },
        p.page == query.page,
        p.per_page == query.per_page,
        p.total == total,
        ({
            let n: int = if query.per_page <= 100 {
                query.per_page as int
            } else {
                100
            };
            let t = total as int;
            let k = p.total_pages as int;
            &&& t <= 0 ==> k == 0
            &&& (t > 0 && n == 0) ==> k == u32::MAX
            &&& (t > 0 && n > 0) ==> (k - 1) * n < t && (k * n >= t || k == u32::MAX)
        }),
{
    let n: int = if query.per_page <= 100 {
        query.per_page as int
    } else {
        100
    };
    let t = total as int;
    let k = p.total_pages as int;
    assert(page_limit(query) == n);
    assert forall|i: int| 0 <= i < rows.len() implies (#[trigger] p.data@[i]).bio == rows[i].bio
        && p.data@[i].id == rows[i].id && p.data@[i].name == rows[i].name && p.data@[i].email
        == rows[i].email && p.data@[i].created_at == rows[i].created_at
        && p.data@[i].updated_at == rows[i].updated_at by {
        assert(p.data@[i] == response_of(rows[i]));
    }
    if t > 0 && n > 0 {
        let q = t / n;
        let r = t % n;
        assert(t == q * n + r && 0 <= r < n) by (nonlinear_arith)
            requires
                n > 0,
                q == t / n,
                r == t % n,
        ;
        let c = q + (if r == 0 {
            0int
        } else {
            1int
        });
        assert(c * n >= t && (c - 1) * n < t) by (nonlinear_arith)
            requires
                c == q + (if r == 0 {
                    0int
                } else {
                    1int
                }),
                t == q * n + r,
                0 <= r < n,
                n > 0,
        ;
        if c > u32::MAX {
            assert(k == u32::MAX);
            assert((k - 1) * n < t) by (nonlinear_arith)
                requires
                    k < c,
                    (c - 1) * n < t,
                    n > 0,
            ;
        } else {
            assert(k == c);
        }
    }
}

/// The window of a listing, stated on its query: the size used is the size
/// asked for, at most 100, and the page starts after the rows of the pages
/// before it (page 0 being read as page 1).
pub proof fn law_window_of_query(query: PaginationQuery)
    ensures
        page_limit(query) == (if query.per_page <= 100 {
            query.per_page as int
        } else {
            100
        }),
        page_offset(query) == (if query.page == 0 {
            0
        } else {
            query.page - 1
        }) * page_limit(query),
        0 <= page_limit(query) <= 100,
{
}

} // verus!
