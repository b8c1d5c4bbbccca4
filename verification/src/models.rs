//! The user records: a stored row, the response a client receives, the
//! bodies of the create and update requests, and pagination.

use vstd::prelude::*;

verus! {

/// One row of the `users` table. Times are microseconds since the Unix
/// epoch, UTC.
pub struct UserRow {
    pub id: i32,
    pub name: String,
    pub email: String,
    pub bio: Option<String>,
    pub created_at: i64,
    pub updated_at: i64,
}

/// What a client receives for a user: every column of the row (and no
/// column that a row might gain for internal use).
pub struct UserResponse {
    pub id: i32,
    pub name: String,
    pub email: String,
    pub bio: Option<String>,
    pub created_at: i64,
    pub updated_at: i64,
}

/// The response that a row is shown as.
pub open spec fn response_of(row: UserRow) -> UserResponse {
    UserResponse {
        id: row.id,
        name: row.name,
        email: row.email,
        bio: row.bio,
        created_at: row.created_at,
        updated_at: row.updated_at,
    }
}

impl From<UserRow> for UserResponse {
    fn from(row: UserRow) -> (r: UserResponse) {
        UserResponse {
            id: row.id,
            name: row.name,
            email: row.email,
            bio: row.bio,
            created_at: row.created_at,
            updated_at: row.updated_at,
        }
    }
}

impl vstd::std_specs::convert::FromSpecImpl<UserRow> for UserResponse {
    open spec fn obeys_from_spec() -> bool {
        true
    }

    open spec fn from_spec(row: UserRow) -> UserResponse {
        response_of(row)
    }
}

/// The body of a request to create a user.
pub struct CreateUserRequest {
    /// 1 to 100 characters.
    pub name: String,
    /// A valid email address.
    pub email: String,
    /// At most 500 characters.
    pub bio: Option<String>,
}

/// The body of a request to change a user; a field left out stays as it is.
pub struct UpdateUserRequest {
    /// 1 to 100 characters.
    pub name: Option<String>,
    /// A valid email address.
    pub email: Option<String>,
    /// At most 500 characters.
    pub bio: Option<String>,
}

/// The page of users that a list request asks for.
#[derive(PartialEq, Eq, Structural, Clone, Copy, Debug)]
pub struct PaginationQuery {
    /// Counted from 1.
    pub page: u32,
    pub per_page: u32,
}

/// The page asked for when a request names none.
pub fn default_page() -> (p: u32)
    ensures
        p == 1,
{
    1
}

/// The page size asked for when a request names none.
pub fn default_per_page() -> (p: u32)
    ensures
        p == 20,
{
    20
}

/// One page of a listing.
pub struct PaginatedResponse<T> {
    pub data: Vec<T>,
    pub page: u32,
    pub per_page: u32,
    pub total: i64,
    pub total_pages: u32,
}


/// A response carries every column of its row unchanged: whether it comes
/// from `From` or from the service's replies, its id, name, email, bio and
/// times are the row's.
pub proof fn law_response_keeps_every_column(row: UserRow)
    ensures
        ({
            let r = <UserResponse as vstd::std_specs::convert::FromSpec<UserRow>>::from_spec(row);
            &&& <UserResponse as vstd::std_specs::convert::FromSpec<UserRow>>::obeys_from_spec()
            &&& r.id == row.id
            &&& r.name == row.name
            &&& r.email == row.email
            &&& r.bio == row.bio
            &&& r.created_at == row.created_at
            &&& r.updated_at == row.updated_at
        }),
        response_of(row).id == row.id,
        response_of(row).name == row.name,
        response_of(row).email == row.email,
        response_of(row).bio == row.bio,
        response_of(row).created_at == row.created_at,
        response_of(row).updated_at == row.updated_at,
{
}

} // verus!
