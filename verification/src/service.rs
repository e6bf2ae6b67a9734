//! The user service: the rules of creating, fetching and listing users over
//! the identity store.

use crate::error::{ServiceError, ServiceErrorView};
use crate::store::{
    after_create, after_creates, by_email, by_id, create_succeeds, first_unused_from, has_email,
    id_unused, identifier_in_use, page_of, records_distinct, InMemoryUserRepository,
};
use crate::user::{
    fresh_id, new_user, now_micros, response_of, response_views, responses_of, user_views,
    CreateUserRequest, ListUsersRequest, ListUsersResponse, User, UserResponse, UserResponseView,
    UserView,
};
use vstd::prelude::*;

verus! {

/// The digest under which a password is stored.
pub open spec fn password_digest(password: Seq<char>) -> Seq<char> {
    "hashed_"@ + password
}

/// The digest under which a password is stored.
pub fn hash_password(password: &str) -> (digest: String)
    ensures
        digest@ == password_digest(password@),
{
    "hashed_".to_owned().concat(password)
}

/// The record that a request creates under `id` at `now`: its email, and
/// its password as a digest.
pub open spec fn created_user(id: u128, now: i64, request: CreateUserRequest) -> UserView {
    new_user(id, now, request.email@, password_digest(request.password@))
}

/// The page that is served: the one asked for, the first if none or page 0
/// was.
pub open spec fn effective_page(page: Option<u32>) -> u32 {
    match page {
        Some(p) => if p < 1 {
            1
        } else {
            p
        },
        None => 1,
    }
}

/// The page size that is served: the one asked for, within 1 and 100, and 10
/// if none was.
pub open spec fn effective_limit(limit: Option<u32>) -> u32 {
    match limit {
        Some(l) => if l > 100 {
            100
        } else if l < 1 {
            1
        } else {
            l
        },
        None => 10,
    }
}

/// The value of an optional response.
pub open spec fn optional_response_view(response: Option<UserResponse>) -> Option<UserResponseView> {
    match response {
        Some(r) => Some(r@),
        None => None,
    }
}

/// The projection of an optional record.
pub open spec fn optional_response_of(user: Option<UserView>) -> Option<UserResponseView> {
    match user {
        Some(u) => Some(response_of(u)),
        None => None,
    }
}

/// The value of an error of the service, where a call ended in one.
pub open spec fn service_failure<T>(res: Result<T, ServiceError>) -> Option<ServiceErrorView> {
    match res {
        Ok(_) => None,
        Err(error) => Some(error@),
    }
}

/// The user service over an identity store of its own.
#[derive(Debug)]
pub struct UserServiceImpl {
    repository: InMemoryUserRepository,
}

impl View for UserServiceImpl {
    type V = Seq<UserView>;

    closed spec fn view(&self) -> Seq<UserView> {
        self.repository@
    }
}

impl UserServiceImpl {
    /// The store under the service is in order.
    pub open spec fn wf(&self) -> bool {
        records_distinct(self@)
    }

    /// A service over the given store.
    pub fn new(repository: InMemoryUserRepository) -> (service: Self)
        requires
            repository.wf(),
        ensures
            service@ == repository@,
            service.wf(),
    {
        UserServiceImpl { repository }
    }

    /// Creates a user under a new identifier, unless the email is taken. The
    /// password is stored as its digest and is not part of the answer.
    pub fn create_user(&mut self, request: CreateUserRequest) -> (res: Result<
        UserResponse,
        ServiceError,
    >)
        requires
            old(self).wf(),
        ensures
            final(self).wf(),
            has_email(old(self)@, request.email@) ==> service_failure(res) == Some(
                ServiceErrorView::AlreadyExists,
            ) && final(self)@ == old(self)@,
            !has_email(old(self)@, request.email@) ==> res is Ok && id_unused(
                old(self)@,
                res->Ok_0.id,
            ) && res->Ok_0@ == response_of(
                created_user(res->Ok_0.id, res->Ok_0.created_at, request),
            ) && final(self)@ == old(self)@.push(
                created_user(res->Ok_0.id, res->Ok_0.created_at, request),
            ),
    {
        let drawn = fresh_id();
        let now = now_micros();
        self.create_user_from(drawn, now, request)
    }

    /// Creates a user at time `now`, unless the email is taken, under the
    /// first identifier from `drawn` on that no user has.
    pub fn create_user_from(&mut self, drawn: u128, now: i64, request: CreateUserRequest) -> (res:
        Result<UserResponse, ServiceError>)
        requires
            old(self).wf(),
        ensures
            final(self).wf(),
            has_email(old(self)@, request.email@) ==> service_failure(res) == Some(
                ServiceErrorView::AlreadyExists,
            ) && final(self)@ == old(self)@,
            !has_email(old(self)@, request.email@) ==> res is Ok && id_unused(
                old(self)@,
                res->Ok_0.id,
            ) && res->Ok_0@ == response_of(
                created_user(first_unused_from(old(self)@, drawn), now, request),
            ) && final(self)@ == old(self)@.push(
                created_user(first_unused_from(old(self)@, drawn), now, request),
            ),
    {
        let digest = hash_password(request.password.as_str());
        match self.repository.create_from(drawn, now, request.email, digest) {
            Ok(user) => Ok(UserResponse::from_user(user)),
            Err(error) => Err(ServiceError::from_repository(error)),
        }
    }

    /// Creates a user under the given identifier and time. A taken email is
    /// refused with `AlreadyExists`, an identifier in use with an internal
    /// error; neither changes the store.
    pub fn create_user_with(&mut self, id: u128, now: i64, request: CreateUserRequest) -> (res:
        Result<UserResponse, ServiceError>)
        requires
            old(self).wf(),
        ensures
            final(self).wf(),
            has_email(old(self)@, request.email@) ==> service_failure(res) == Some(
                ServiceErrorView::AlreadyExists,
            ),
            !has_email(old(self)@, request.email@) && !id_unused(old(self)@, id)
                ==> service_failure(res) == Some(ServiceErrorView::Internal(identifier_in_use())),
            res is Ok <==> create_succeeds(old(self)@, created_user(id, now, request)),
            res is Ok ==> res->Ok_0@ == response_of(created_user(id, now, request)),
            final(self)@ == after_create(old(self)@, created_user(id, now, request)),
    {
        let digest = hash_password(request.password.as_str());
        match self.repository.create_with(id, now, request.email, digest) {
            Ok(user) => Ok(UserResponse::from_user(user)),
            Err(error) => Err(ServiceError::from_repository(error)),
        }
    }

    /// The user with this identifier, if there is one.
    pub fn get_user_by_id(&self, id: u128) -> (res: Result<Option<UserResponse>, ServiceError>)
        ensures
            res is Ok,
            optional_response_view(res->Ok_0) == optional_response_of(by_id(self@, id)),
    {
        match self.repository.find_by_id(id) {
            Some(user) => Ok(Some(UserResponse::from_user(user))),
            None => Ok(None),
        }
    }

    /// The user with this email; `NotFound` if there is none.
    pub fn get_user_by_email(&self, email: &str) -> (res: Result<UserResponse, ServiceError>)
        ensures
            match by_email(self@, email@) {
                Some(user) => res is Ok && res->Ok_0@ == response_of(user),
                None => service_failure(res) == Some(ServiceErrorView::NotFound),
            },
    {
        match self.repository.find_by_email(email) {
            Some(user) => Ok(UserResponse::from_user(user)),
            None => Err(ServiceError::NotFound),
        }
    }

    /// A page of users. A missing page is the first, and page 0 too; a
    /// missing limit is 10, and a limit is kept within 1 and 100.
    pub fn list_users(&self, request: ListUsersRequest) -> (res: ListUsersResponse)
        ensures
            res.page == effective_page(request.page),
            res.limit == effective_limit(request.limit),
            res.total == self@.len(),
            response_views(res.users@) == responses_of(page_of(self@, res.page, res.limit)),
    {
        let page: u32 = match request.page {
            Some(p) => if p < 1 {
                1
            } else {
                p
            },
            None => 1,
        };
        let limit: u32 = match request.limit {
            Some(l) => if l > 100 {
                100
            } else if l < 1 {
                1
            } else {
                l
            },
            None => 10,
        };
        let (users, total) = self.repository.list(page, limit);
        let responses = UserResponse::from_users(users);
        ListUsersResponse { users: responses, total, page, limit }
    }

    /// Number of users.
    pub fn count(&self) -> (n: usize)
        ensures
            n == self@.len(),
    {
        self.repository.len()
    }
}

/// Makes user services.
pub struct ServiceFactory;

impl ServiceFactory {
    /// A service over an empty store.
    pub fn create_user_service() -> (service: UserServiceImpl)
        ensures
            service@ == Seq::<UserView>::empty(),
            service.wf(),
    {
        UserServiceImpl::new(InMemoryUserRepository::new())
    }

    /// A service over a store into which each of `users` was inserted in
    /// turn; one whose email or identifier was taken is left out.
    pub fn create_user_service_with_data(users: Vec<User>) -> (service: UserServiceImpl)
        ensures
            service@ == after_creates(Seq::<UserView>::empty(), user_views(users@)),
            service.wf(),
    {
        UserServiceImpl::new(InMemoryUserRepository::new_with_users(users))
    }
}

} // verus!
