//! The envelope in which every answer leaves the service, and the HTTP
//! status that goes with it.

use crate::text::same_text;
use vstd::prelude::*;

verus! {

/// Paging data of a list answer.
#[derive(Clone, Copy, Debug, PartialEq, Eq, Structural)]
pub struct Meta {
    pub page: Option<u32>,
    pub limit: Option<u32>,
    pub total: Option<u64>,
    pub total_pages: Option<u32>,
}

/// The number of pages that hold `total` records, `limit` to a page:
/// `total / limit` rounded up, and no more than a `u32` holds. With a limit
/// of 0 there are no pages for no records, and the largest number for any.
pub open spec fn total_pages(total: u64, limit: u32) -> u32 {
    if limit == 0 {
        if total == 0 {
            0
        } else {
            u32::MAX
        }
    } else if (total + limit - 1) / (limit as int) > u32::MAX {
        u32::MAX
    } else {
        ((total + limit - 1) / (limit as int)) as u32
    }
}

impl Meta {
    /// The paging data of page `page` of `total` records, `limit` to a page.
    pub fn new(page: u32, limit: u32, total: u64) -> (meta: Self)
        ensures
            meta == (Meta {
                page: Some(page),
                limit: Some(limit),
                total: Some(total),
                total_pages: Some(total_pages(total, limit)),
            }),
    {
        let pages: u32 = if limit == 0 {
            if total == 0 {
                0
            } else {
                u32::MAX
            }
        } else {
            let width: u64 = limit as u64;
            let full: u64 = total / width;
            let rest: u64 = total % width;
            assert(rest != 0 ==> full < u64::MAX) by (nonlinear_arith)
                requires
                    width >= 1,
                    total <= u64::MAX,
                    full == total / width,
                    rest == total % width,
            ;
            let count: u64 = if rest == 0 {
                full
            } else {
                full + 1
            };
            assert(count == (total + width - 1) / (width as int)) by (nonlinear_arith)
                requires
                    width >= 1,
                    full == total / width,
                    rest == total % width,
                    count == if rest == 0 {
                        full as int
                    } else {
                        full + 1
                    },
            ;
            if count > 0xffff_ffff {
                u32::MAX
            } else {
                count as u32
            }
        };
        Meta { page: Some(page), limit: Some(limit), total: Some(total), total_pages: Some(pages) }
    }
}

/// The error of an answer: a code, a sentence, and for a failed validation
/// the list of what failed.
#[derive(Debug, PartialEq, Eq)]
pub struct ApiError {
    pub code: String,
    pub message: String,
    pub details: Option<Vec<String>>,
}

/// Mathematical value of an [`ApiError`].
pub struct ApiErrorView {
    pub code: Seq<char>,
    pub message: Seq<char>,
    pub details: Option<Seq<Seq<char>>>,
}

/// The views of a list of strings.
pub open spec fn line_views(lines: Seq<String>) -> Seq<Seq<char>> {
    Seq::new(lines.len(), |i: int| lines[i]@)
}

impl View for ApiError {
    type V = ApiErrorView;

    open spec fn view(&self) -> ApiErrorView {
        ApiErrorView {
            code: self.code@,
            message: self.message@,
            details: match self.details {
                Some(lines) => Some(line_views(lines@)),
                None => None,
            },
        }
    }
}

impl ApiError {
    /// An error without details.
    pub fn new(code: &str, message: &str) -> (error: Self)
        ensures
            error@ == (ApiErrorView { code: code@, message: message@, details: None }),
    {
        ApiError { code: code.to_owned(), message: message.to_owned(), details: None }
    }

    /// An error with details.
    pub fn with_details(code: &str, message: &str, details: Vec<String>) -> (error: Self)
        ensures
            error@ == (ApiErrorView {
                code: code@,
                message: message@,
                details: Some(line_views(details@)),
            }),
    {
        ApiError { code: code.to_owned(), message: message.to_owned(), details: Some(details) }
    }
}

/// The envelope of an answer.
#[derive(Debug, PartialEq, Eq)]
pub struct ApiResponse<T> {
    pub success: bool,
    pub data: Option<T>,
    pub error: Option<ApiError>,
    pub meta: Option<Meta>,
}

/// An envelope that reports success.
pub trait ResponseSuccess<T>: Sized {
    fn success(data: T) -> Self;

    fn success_with_meta(data: T, meta: Meta) -> Self;
}

/// An envelope that reports an error.
pub trait ResponseError: Sized {
    fn error(error: ApiError) -> Self;
}

impl<T> ResponseSuccess<T> for ApiResponse<T> {
    fn success(data: T) -> (response: Self)
        ensures
            response == (ApiResponse { success: true, data: Some(data), error: None, meta: None }),
    {
        ApiResponse { success: true, data: Some(data), error: None, meta: None }
    }

    fn success_with_meta(data: T, meta: Meta) -> (response: Self)
        ensures
            response == (ApiResponse {
                success: true,
                data: Some(data),
                error: None,
                meta: Some(meta),
            }),
    {
        ApiResponse { success: true, data: Some(data), error: None, meta: Some(meta) }
    }
}

impl ResponseError for ApiResponse<()> {
    fn error(error: ApiError) -> (response: Self)
        ensures
            response == (ApiResponse::<()> {
                success: false,
                data: None,
                error: Some(error),
                meta: None,
            }),
    {
        ApiResponse { success: false, data: None, error: Some(error), meta: None }
    }
}

/// The HTTP status that goes with an error code.
pub open spec fn status_of_code(code: Seq<char>) -> u16 {
    if code == "BAD_REQUEST"@ {
        400
    } else if code == "UNAUTHORIZED"@ {
        401
    } else if code == "FORBIDDEN"@ {
        403
    } else if code == "NOT_FOUND"@ {
        404
    } else if code == "VALIDATION_ERROR"@ {
        400
    } else if code == "CONFLICT"@ {
        409
    } else {
        500
    }
}

/// The HTTP status that goes with an envelope: 200 for a success, the status
/// of its error code for an error, 500 for an error without one.
pub open spec fn envelope_status<T>(response: ApiResponse<T>) -> u16 {
    if response.success {
        200
    } else {
        match response.error {
            Some(error) => status_of_code(error.code@),
            None => 500,
        }
    }
}

/// The envelope reports exactly this error, without details.
pub open spec fn is_error_envelope<T>(response: ApiResponse<T>, code: Seq<char>, message: Seq<char>) -> bool {
    &&& !response.success
    &&& response.data is None
    &&& response.meta is None
    &&& response.error is Some
    &&& response.error->0@ == (ApiErrorView { code, message, details: None })
}

impl<T> ApiResponse<T> {
    /// The HTTP status with which this envelope is sent.
    pub fn status_code(&self) -> (status: u16)
        ensures
            status == envelope_status(*self),
    {
        if self.success {
            200
        } else {
            match &self.error {
                Some(error) => {
                    let code = error.code.as_str();
                    if same_text(code, "BAD_REQUEST") {
                        400
                    } else if same_text(code, "UNAUTHORIZED") {
                        401
                    } else if same_text(code, "FORBIDDEN") {
                        403
                    } else if same_text(code, "NOT_FOUND") {
                        404
                    } else if same_text(code, "VALIDATION_ERROR") {
                        400
                    } else if same_text(code, "CONFLICT") {
                        409
                    } else {
                        500
                    }
                },
                None => 500,
            }
        }
    }
}

/// The envelope of a successful answer.
pub fn success_response<T>(data: T) -> (response: ApiResponse<T>)
    ensures
        response == (ApiResponse { success: true, data: Some(data), error: None, meta: None }),
{
    ApiResponse::success(data)
}

/// The envelope of a successful list answer.
pub fn success_response_with_meta<T>(data: T, meta: Meta) -> (response: ApiResponse<T>)
    ensures
        response == (ApiResponse { success: true, data: Some(data), error: None, meta: Some(meta) }),
{
    ApiResponse::success_with_meta(data, meta)
}

/// An error answer: the status and the envelope.
pub fn error_response(status: u16, code: &str, message: &str) -> (res: (u16, ApiResponse<()>))
    ensures
        res.0 == status,
        is_error_envelope(res.1, code@, message@),
{
    (status, ApiResponse::error(ApiError::new(code, message)))
}

/// An error answer with details.
pub fn error_response_with_details(
    status: u16,
    code: &str,
    message: &str,
    details: Vec<String>,
) -> (res: (u16, ApiResponse<()>))
    ensures
        res.0 == status,
        !res.1.success,
        res.1.data is None,
        res.1.meta is None,
        res.1.error is Some,
        res.1.error->0@ == (ApiErrorView {
            code: code@,
            message: message@,
            details: Some(line_views(details@)),
        }),
{
    (status, ApiResponse::error(ApiError::with_details(code, message, details)))
}

/// The answer to a request that failed validation: status 400, code
/// `VALIDATION_ERROR`, and what failed as details.
pub fn validation_error_response(validation_errors: Vec<String>) -> (res: (u16, ApiResponse<()>))
    ensures
        res.0 == 400,
        !res.1.success,
        res.1.data is None,
        res.1.meta is None,
        res.1.error is Some,
        res.1.error->0@ == (ApiErrorView {
            code: "VALIDATION_ERROR"@,
            message: "Request validation failed"@,
            details: Some(line_views(validation_errors@)),
        }),
{
    error_response_with_details(
        400,
        "VALIDATION_ERROR",
        "Request validation failed",
        validation_errors,
    )
}

/// The answer for something that is not there: status 404, code `NOT_FOUND`.
pub fn not_found_response(resource: &str) -> (res: (u16, ApiResponse<()>))
    ensures
        res.0 == 404,
        is_error_envelope(res.1, "NOT_FOUND"@, resource@ + " not found"@),
{
    let message = resource.to_owned().concat(" not found");
    error_response(404, "NOT_FOUND", message.as_str())
}

/// The answer for a fault of the service: status 500, code `INTERNAL_ERROR`.
pub fn internal_error_response(message: &str) -> (res: (u16, ApiResponse<()>))
    ensures
        res.0 == 500,
        is_error_envelope(res.1, "INTERNAL_ERROR"@, message@),
{
    error_response(500, "INTERNAL_ERROR", message)
}

/// The answer to a request that cannot be served: status 400, code
/// `BAD_REQUEST`.
pub fn bad_request_response(message: &str) -> (res: (u16, ApiResponse<()>))
    ensures
        res.0 == 400,
        is_error_envelope(res.1, "BAD_REQUEST"@, message@),
{
    error_response(400, "BAD_REQUEST", message)
}

/// The answer to a request without valid credentials: status 401, code
/// `UNAUTHORIZED`.
pub fn unauthorized_response(message: &str) -> (res: (u16, ApiResponse<()>))
    ensures
        res.0 == 401,
        is_error_envelope(res.1, "UNAUTHORIZED"@, message@),
{
    error_response(401, "UNAUTHORIZED", message)
}

} // verus!
