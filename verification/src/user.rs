//! User records and the shapes in which they enter and leave the service.

use vstd::prelude::*;

verus! {

/// A user record. The identifier is the 128-bit value of a UUID; the two
/// timestamps count microseconds since the Unix epoch, in UTC.
#[derive(Debug, PartialEq, Eq)]
pub struct User {
    pub id: u128,
    pub email: String,
    pub password_hash: String,
    pub created_at: i64,
    pub updated_at: i64,
}

/// Mathematical value of a [`User`].
pub struct UserView {
    pub id: u128,
    pub email: Seq<char>,
    pub password_hash: Seq<char>,
    pub created_at: i64,
    pub updated_at: i64,
}

impl View for User {
    type V = UserView;

    open spec fn view(&self) -> UserView {
        UserView {
            id: self.id,
            email: self.email@,
            password_hash: self.password_hash@,
            created_at: self.created_at,
            updated_at: self.updated_at,
        }
    }
}

impl Clone for User {
    fn clone(&self) -> (copy: Self)
        ensures
            copy@ == self@,
    {
        User {
            id: self.id,
            email: self.email.clone(),
            password_hash: self.password_hash.clone(),
            created_at: self.created_at,
            updated_at: self.updated_at,
        }
    }
}

/// A new random identifier: `Uuid::new_v4` as a number. Nothing is claimed
/// of it.
#[verifier::external_body]
pub(crate) fn fresh_id() -> u128 {
    uuid::Uuid::new_v4().as_u128()
}

/// The current time from `Utc::now`, in microseconds since the Unix epoch.
/// Nothing is claimed of it.
#[verifier::external_body]
pub(crate) fn now_micros() -> i64 {
    chrono::Utc::now().timestamp_micros()
}

/// The record of a user created at `now` under `id`.
pub open spec fn new_user(id: u128, now: i64, email: Seq<char>, password_hash: Seq<char>) -> UserView {
    UserView { id, email, password_hash, created_at: now, updated_at: now }
}

impl User {
    /// A record with a new random identifier, created now.
    pub fn new(email: String, password_hash: String) -> (user: Self)
        ensures
            user@ == new_user(user.id, user.created_at, email@, password_hash@),
    {
        let id = fresh_id();
        let now = now_micros();
        User::with_identity(id, now, email, password_hash)
    }

    /// The record of a user created at `now` under `id`.
    pub fn with_identity(id: u128, now: i64, email: String, password_hash: String) -> (user: Self)
        ensures
            user@ == new_user(id, now, email@, password_hash@),
    {
        User { id, email, password_hash, created_at: now, updated_at: now }
    }
}

/// The body of a request to create a user.
#[derive(Debug, PartialEq, Eq)]
pub struct CreateUserRequest {
    pub email: String,
    pub password: String,
}

/// Paging wishes of a request to list users, as the service takes them.
#[derive(Clone, Copy, Debug, PartialEq, Eq, Structural)]
pub struct ListUsersRequest {
    pub page: Option<u32>,
    pub limit: Option<u32>,
}

/// Paging wishes of a request to list users, as the query string gives them.
#[derive(Clone, Copy, Debug, PartialEq, Eq, Structural)]
pub struct ListUsersParams {
    pub page: Option<u32>,
    pub limit: Option<u32>,
}

/// What the service tells of a user: all but the password digest.
#[derive(Debug, PartialEq, Eq)]
pub struct UserResponse {
    pub id: u128,
    pub email: String,
    pub created_at: i64,
    pub updated_at: i64,
}

/// Mathematical value of a [`UserResponse`].
pub struct UserResponseView {
    pub id: u128,
    pub email: Seq<char>,
    pub created_at: i64,
    pub updated_at: i64,
}

impl View for UserResponse {
    type V = UserResponseView;

    open spec fn view(&self) -> UserResponseView {
        UserResponseView {
            id: self.id,
            email: self.email@,
            created_at: self.created_at,
            updated_at: self.updated_at,
        }
    }
}

/// The projection of a record that leaves the service.
pub open spec fn response_of(user: UserView) -> UserResponseView {
    UserResponseView {
        id: user.id,
        email: user.email,
        created_at: user.created_at,
        updated_at: user.updated_at,
    }
}

/// The projections of a list of records, in order.
pub open spec fn responses_of(users: Seq<UserView>) -> Seq<UserResponseView> {
    Seq::new(users.len(), |i: int| response_of(users[i]))
}

/// The values of a list of responses, in order.
pub open spec fn response_views(responses: Seq<UserResponse>) -> Seq<UserResponseView> {
    Seq::new(responses.len(), |i: int| responses[i]@)
}

/// The values of a list of records, in order.
pub open spec fn user_views(users: Seq<User>) -> Seq<UserView> {
    Seq::new(users.len(), |i: int| users[i]@)
}

impl UserResponse {
    /// The projection of a record.
    pub fn from_user(user: User) -> (response: Self)
        ensures
            response@ == response_of(user@),
    {
        UserResponse {
            id: user.id,
            email: user.email,
            created_at: user.created_at,
            updated_at: user.updated_at,
        }
    }

    /// The projections of a list of records, in order.
    pub fn from_users(users: Vec<User>) -> (responses: Vec<UserResponse>)
        ensures
            response_views(responses@) == responses_of(user_views(users@)),
    {
        let mut responses: Vec<UserResponse> = Vec::new();
        let mut i: usize = 0;
        while i < users.len()
            invariant
                0 <= i <= users@.len(),
                responses@.len() == i,
                forall|k: int| 0 <= k < i ==> (#[trigger] responses@[k])@ == response_of(users@[k]@),
            decreases users@.len() - i,
        {
            responses.push(UserResponse::from_user(users[i].clone()));
            i += 1;
        }
        assert(response_views(responses@) =~= responses_of(user_views(users@)));
        responses
    }
}

/// A page of users as the service reports it.
#[derive(Debug, PartialEq, Eq)]
pub struct ListUsersResponse {
    pub users: Vec<UserResponse>,
    pub total: u64,
    pub page: u32,
    pub limit: u32,
}

} // verus!
