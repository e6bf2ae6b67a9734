//! What the service answers to each request on users: the envelope and the
//! HTTP status. An answer that reports success is sent with status 200; an
//! error comes with its own status.

use crate::error::{ServiceError, ServiceErrorView};
use crate::response::{
    bad_request_response, internal_error_response, is_error_envelope, not_found_response,
    success_response, success_response_with_meta, total_pages, validation_error_response,
    ApiErrorView, ApiResponse, Meta,
};
use crate::service::{created_user, effective_limit, effective_page, UserServiceImpl};
use crate::store::{by_id, has_email, id_unused, page_of};
use crate::user::{
    response_of, response_views, responses_of, CreateUserRequest, ListUsersParams,
    ListUsersRequest, UserResponse,
};
use crate::validation::{email_is_valid, password_is_long_enough, validation_errors};
use vstd::prelude::*;

verus! {

/// The answer to a request to create a user, given what the service said:
/// the user on success; for a taken email and for a failed validation a bad
/// request; for anything else an internal error.
pub fn create_user_reply(result: Result<UserResponse, ServiceError>) -> (res: Result<
    ApiResponse<UserResponse>,
    (u16, ApiResponse<()>),
>)
    ensures
        match result {
            Ok(user) => res == Ok::<ApiResponse<UserResponse>, (u16, ApiResponse<()>)>(
                ApiResponse { success: true, data: Some(user), error: None, meta: None },
            ),
            Err(error) => res is Err && match error@ {
                ServiceErrorView::AlreadyExists => res->Err_0.0 == 400 && is_error_envelope(
                    res->Err_0.1,
                    "BAD_REQUEST"@,
                    "User with this email already exists"@,
                ),
                ServiceErrorView::Validation(details) => res->Err_0.0 == 400 && is_error_envelope(
                    res->Err_0.1,
                    "BAD_REQUEST"@,
                    details,
                ),
                _ => res->Err_0.0 == 500 && is_error_envelope(
                    res->Err_0.1,
                    "INTERNAL_ERROR"@,
                    "Failed to create user"@,
                ),
            },
        },
{
    match result {
        Ok(user) => Ok(success_response(user)),
        Err(ServiceError::AlreadyExists) => Err(
            bad_request_response("User with this email already exists"),
        ),
        Err(ServiceError::Validation(details)) => Err(bad_request_response(details.as_str())),
        Err(_) => Err(internal_error_response("Failed to create user")),
    }
}

/// Creates a user. An invalid request is answered with status 400 and code
/// `VALIDATION_ERROR`, and a taken email with status 400 and code
/// `BAD_REQUEST`; neither changes the store. A valid request with a new
/// email adds the user, under an identifier that no user had, and is
/// answered with the user.
pub fn create_user(service: &mut UserServiceImpl, payload: CreateUserRequest) -> (res: Result<
    ApiResponse<UserResponse>,
    (u16, ApiResponse<()>),
>)
    requires
        old(service).wf(),
    ensures
        final(service).wf(),
        !payload.is_valid() ==> final(service)@ == old(service)@ && res is Err && res->Err_0.0
            == 400 && !res->Err_0.1.success && res->Err_0.1.data is None && res->Err_0.1.meta
            is None && res->Err_0.1.error is Some && res->Err_0.1.error->0@ == (ApiErrorView {
            code: "VALIDATION_ERROR"@,
            message: "Request validation failed"@,
            details: Some(
                validation_errors(
                    email_is_valid(payload.email@),
                    password_is_long_enough(payload.password@),
                ),
            ),
        }),
        payload.is_valid() && has_email(old(service)@, payload.email@) ==> final(service)@
            == old(service)@ && res is Err && res->Err_0.0 == 400 && is_error_envelope(
            res->Err_0.1,
            "BAD_REQUEST"@,
            "User with this email already exists"@,
        ),
        payload.is_valid() && !has_email(old(service)@, payload.email@) ==> res is Ok
            && res->Ok_0.success && res->Ok_0.error is None && res->Ok_0.meta is None
            && res->Ok_0.data is Some && id_unused(old(service)@, res->Ok_0.data->0.id)
            && res->Ok_0.data->0@ == response_of(
            created_user(res->Ok_0.data->0.id, res->Ok_0.data->0.created_at, payload),
        ) && final(service)@ == old(service)@.push(
            created_user(res->Ok_0.data->0.id, res->Ok_0.data->0.created_at, payload),
        ),
{
    match payload.validate() {
        Err(errors) => Err(validation_error_response(errors)),
        Ok(()) => {
            let result = service.create_user(payload);
            create_user_reply(result)
        },
    }
}

/// The answer to a request for one user, given what the service said.
pub fn get_user_reply(result: Result<Option<UserResponse>, ServiceError>) -> (res: Result<
    ApiResponse<UserResponse>,
    (u16, ApiResponse<()>),
>)
    ensures
        match result {
            Ok(Some(user)) => res == Ok::<ApiResponse<UserResponse>, (u16, ApiResponse<()>)>(
                ApiResponse { success: true, data: Some(user), error: None, meta: None },
            ),
            Ok(None) => res is Err && res->Err_0.0 == 404 && is_error_envelope(
                res->Err_0.1,
                "NOT_FOUND"@,
                "User"@ + " not found"@,
            ),
            Err(_) => res is Err && res->Err_0.0 == 500 && is_error_envelope(
                res->Err_0.1,
                "INTERNAL_ERROR"@,
                "Failed to retrieve user"@,
            ),
        },
{
    match result {
        Ok(Some(user)) => Ok(success_response(user)),
        Ok(None) => Err(not_found_response("User")),
        Err(_) => Err(internal_error_response("Failed to retrieve user")),
    }
}

/// Fetches a user by identifier: the user, or status 404 and code
/// `NOT_FOUND` where there is none.
pub fn get_user(service: &UserServiceImpl, user_id: u128) -> (res: Result<
    ApiResponse<UserResponse>,
    (u16, ApiResponse<()>),
>)
    ensures
        match by_id(service@, user_id) {
            Some(user) => res is Ok && res->Ok_0.success && res->Ok_0.error is None
                && res->Ok_0.meta is None && res->Ok_0.data is Some && res->Ok_0.data->0@
                == response_of(user),
            None => res is Err && res->Err_0.0 == 404 && is_error_envelope(
                res->Err_0.1,
                "NOT_FOUND"@,
                "User"@ + " not found"@,
            ),
        },
{
    get_user_reply(service.get_user_by_id(user_id))
}

/// Lists a page of users, with the paging data of the answer.
pub fn list_users(service: &UserServiceImpl, params: ListUsersParams) -> (res: ApiResponse<
    Vec<UserResponse>,
>)
    ensures
        res.success,
        res.error is None,
        res.data is Some,
        response_views(res.data->0@) == responses_of(
            page_of(service@, effective_page(params.page), effective_limit(params.limit)),
        ),
        res.meta == Some(
            Meta {
                page: Some(effective_page(params.page)),
                limit: Some(effective_limit(params.limit)),
                total: Some(service@.len() as u64),
                total_pages: Some(
                    total_pages(service@.len() as u64, effective_limit(params.limit)),
                ),
            },
        ),
{
    let listed = service.list_users(ListUsersRequest { page: params.page, limit: params.limit });
    let meta = Meta::new(listed.page, listed.limit, listed.total);
    success_response_with_meta(listed.users, meta)
}

/// The answer to a request to change or remove a user, given what was
/// found under its identifier: the operation is not there, so an existing
/// user gets status 400 with `not_implemented`, and a missing one status 404.
pub fn placeholder_reply(
    found: Result<Option<UserResponse>, ServiceError>,
    not_implemented: &str,
    failed: &str,
) -> (res: (u16, ApiResponse<()>))
    ensures
        match found {
            Ok(Some(_)) => res.0 == 400 && is_error_envelope(res.1, "BAD_REQUEST"@, not_implemented@),
            Ok(None) => res.0 == 404 && is_error_envelope(
                res.1,
                "NOT_FOUND"@,
                "User"@ + " not found"@,
            ),
            Err(_) => res.0 == 500 && is_error_envelope(res.1, "INTERNAL_ERROR"@, failed@),
        },
{
    match found {
        Ok(Some(_)) => bad_request_response(not_implemented),
        Ok(None) => not_found_response("User"),
        Err(_) => internal_error_response(failed),
    }
}

/// Answers a request to update a user. Updating is not implemented: an
/// existing user gets status 400, a missing one status 404. The store is
/// read, never written.
pub fn update_user(service: &UserServiceImpl, user_id: u128) -> (res: (u16, ApiResponse<()>))
    ensures
        match by_id(service@, user_id) {
            Some(_) => res.0 == 400 && is_error_envelope(
                res.1,
                "BAD_REQUEST"@,
                "Update functionality not implemented yet"@,
            ),
            None => res.0 == 404 && is_error_envelope(
                res.1,
                "NOT_FOUND"@,
                "User"@ + " not found"@,
            ),
        },
{
    placeholder_reply(
        service.get_user_by_id(user_id),
        "Update functionality not implemented yet",
        "Failed to update user",
    )
}

/// Answers a request to delete a user. Deleting is not implemented: an
/// existing user gets status 400, a missing one status 404. The store is
/// read, never written.
pub fn delete_user(service: &UserServiceImpl, user_id: u128) -> (res: (u16, ApiResponse<()>))
    ensures
        match by_id(service@, user_id) {
            Some(_) => res.0 == 400 && is_error_envelope(
                res.1,
                "BAD_REQUEST"@,
                "Delete functionality not implemented yet"@,
            ),
            None => res.0 == 404 && is_error_envelope(
                res.1,
                "NOT_FOUND"@,
                "User"@ + " not found"@,
            ),
        },
{
    placeholder_reply(
        service.get_user_by_id(user_id),
        "Delete functionality not implemented yet",
        "Failed to delete user",
    )
}

} // verus!
