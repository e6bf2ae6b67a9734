use user_service::config::{port_or_default, Config};
use user_service::response::{
    bad_request_response, error_response, error_response_with_details, internal_error_response,
    not_found_response, success_response, success_response_with_meta, unauthorized_response,
    validation_error_response, ApiError, ApiResponse, Meta, ResponseError, ResponseSuccess,
};

#[test]
fn meta_counts_pages_rounding_up() {
    assert_eq!(
        Meta::new(1, 10, 25),
        Meta { page: Some(1), limit: Some(10), total: Some(25), total_pages: Some(3) }
    );
    assert_eq!(Meta::new(1, 10, 30).total_pages, Some(3));
    assert_eq!(Meta::new(1, 10, 31).total_pages, Some(4));
    assert_eq!(Meta::new(1, 10, 1).total_pages, Some(1));
    assert_eq!(Meta::new(1, 10, 0).total_pages, Some(0));
    assert_eq!(Meta::new(2, 1, 7).total_pages, Some(7));
}

#[test]
fn meta_with_extreme_values() {
    assert_eq!(Meta::new(1, 0, 0).total_pages, Some(0));
    assert_eq!(Meta::new(1, 0, 5).total_pages, Some(u32::MAX));
    assert_eq!(Meta::new(1, 1, u64::MAX).total_pages, Some(u32::MAX));
    assert_eq!(Meta::new(1, u32::MAX, u64::MAX).total_pages, Some(u32::MAX));
    assert_eq!(Meta::new(1, 2, u32::MAX as u64 * 2).total_pages, Some(u32::MAX));
    assert_eq!(Meta::new(1, 2, u32::MAX as u64 * 2 - 1).total_pages, Some(u32::MAX));
    assert_eq!(Meta::new(1, 2, u32::MAX as u64 * 2 - 2).total_pages, Some(u32::MAX - 1));
}

#[test]
fn success_envelopes() {
    assert_eq!(
        success_response(7u32),
        ApiResponse { success: true, data: Some(7u32), error: None, meta: None }
    );
    let meta = Meta::new(1, 10, 1);
    assert_eq!(
        success_response_with_meta("x", meta),
        ApiResponse { success: true, data: Some("x"), error: None, meta: Some(meta) }
    );
    assert_eq!(ApiResponse::success(1u8).status_code(), 200);
    assert_eq!(ApiResponse::success_with_meta(1u8, meta).meta, Some(meta));
}

#[test]
fn error_envelopes() {
    let error = ApiError::new("CONFLICT", "taken");
    assert_eq!(
        error,
        ApiError { code: "CONFLICT".to_string(), message: "taken".to_string(), details: None }
    );
    let response = ApiResponse::error(error);
    assert_eq!(response.success, false);
    assert_eq!(response.data, None);
    assert_eq!(response.meta, None);
    assert_eq!(response.status_code(), 409);

    let detailed = ApiError::with_details("X", "y", vec!["a".to_string()]);
    assert_eq!(detailed.details, Some(vec!["a".to_string()]));
}

#[test]
fn status_follows_the_error_code() {
    for (code, status) in [
        ("BAD_REQUEST", 400),
        ("UNAUTHORIZED", 401),
        ("FORBIDDEN", 403),
        ("NOT_FOUND", 404),
        ("VALIDATION_ERROR", 400),
        ("CONFLICT", 409),
        ("INTERNAL_ERROR", 500),
        ("bad_request", 500),
        ("", 500),
    ] {
        assert_eq!(ApiResponse::error(ApiError::new(code, "m")).status_code(), status);
    }
    let bare: ApiResponse<()> = ApiResponse { success: false, data: None, error: None, meta: None };
    assert_eq!(bare.status_code(), 500);
}

#[test]
fn helper_answers() {
    let (status, body) = error_response(418, "TEAPOT", "short and stout");
    assert_eq!(status, 418);
    assert_eq!(body.error, Some(ApiError::new("TEAPOT", "short and stout")));

    let (status, body) = error_response_with_details(400, "C", "m", vec!["d".to_string()]);
    assert_eq!(status, 400);
    assert_eq!(body.error.unwrap().details, Some(vec!["d".to_string()]));

    let (status, body) = validation_error_response(vec!["email: bad".to_string()]);
    assert_eq!(status, 400);
    assert_eq!(
        body.error,
        Some(ApiError {
            code: "VALIDATION_ERROR".to_string(),
            message: "Request validation failed".to_string(),
            details: Some(vec!["email: bad".to_string()]),
        })
    );

    let (status, body) = not_found_response("User");
    assert_eq!(status, 404);
    assert_eq!(body.error, Some(ApiError::new("NOT_FOUND", "User not found")));

    let (status, body) = internal_error_response("oops");
    assert_eq!(status, 500);
    assert_eq!(body.error, Some(ApiError::new("INTERNAL_ERROR", "oops")));

    let (status, body) = bad_request_response("no");
    assert_eq!(status, 400);
    assert_eq!(body.error, Some(ApiError::new("BAD_REQUEST", "no")));

    let (status, body) = unauthorized_response("who");
    assert_eq!(status, 401);
    assert_eq!(body.error, Some(ApiError::new("UNAUTHORIZED", "who")));
    assert_eq!(body.status_code(), 401);
}

#[test]
fn config_defaults() {
    assert_eq!(
        Config::from_values(None, None, None),
        Config {
            database_url: "postgresql://localhost/rust_boilerplate".to_string(),
            server_host: "127.0.0.1".to_string(),
            server_port: 3000,
        }
    );
}

#[test]
fn config_takes_what_is_given() {
    let config = Config::from_values(
        Some("postgresql://db/users".to_string()),
        Some("0.0.0.0".to_string()),
        Some("8080".to_string()),
    );
    assert_eq!(config.database_url, "postgresql://db/users");
    assert_eq!(config.server_host, "0.0.0.0");
    assert_eq!(config.server_port, 8080);
}

#[test]
fn config_port_that_is_no_port_is_the_default() {
    for bad in ["", "abc", "65536", "-1", "80 ", " 80", "8o", "+", "++80", "-0", "8_0", "0x50", "８０"] {
        assert_eq!(Config::from_values(None, None, Some(bad.to_string())).server_port, 3000);
    }
    assert_eq!(Config::from_values(None, None, Some("65535".to_string())).server_port, 65535);
    assert_eq!(Config::from_values(None, None, Some("0".to_string())).server_port, 0);
    assert_eq!(Config::from_values(None, None, Some("+8080".to_string())).server_port, 8080);
    assert_eq!(Config::from_values(None, None, Some("0008080".to_string())).server_port, 8080);
    assert_eq!(port_or_default(None), 3000);
    assert_eq!(port_or_default(Some(1)), 1);
}
