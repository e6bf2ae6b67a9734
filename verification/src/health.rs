//! Health, readiness and liveness answers.

use crate::response::{success_response, ApiResponse};
use crate::service::UserServiceImpl;
use crate::user::{now_micros, ListUsersRequest};
use vstd::prelude::*;

verus! {

/// The state of the service and of the store under it.
#[derive(Debug, PartialEq, Eq)]
pub struct HealthResponse {
    pub status: String,
    pub timestamp: i64,
    pub service: String,
    pub database_status: String,
}

/// One check of a readiness answer.
#[derive(Debug, PartialEq, Eq)]
pub struct HealthCheck {
    pub name: String,
    pub status: String,
}

/// Whether the service is ready to take requests.
#[derive(Debug, PartialEq, Eq)]
pub struct ReadyResponse {
    pub status: String,
    pub timestamp: i64,
    pub checks: Vec<HealthCheck>,
}

/// Whether the service is alive.
#[derive(Debug, PartialEq, Eq)]
pub struct LiveResponse {
    pub status: String,
    pub timestamp: i64,
}

impl HealthResponse {
    /// A healthy state of `service`, as of now.
    pub fn healthy(service: String) -> (res: Self)
        ensures
            res.status@ == "healthy"@,
            res.service@ == service@,
            res.database_status@ == "healthy"@,
    {
        HealthResponse::healthy_at(service, now_micros())
    }

    /// A healthy state of `service`, as of `now`.
    pub fn healthy_at(service: String, now: i64) -> (res: Self)
        ensures
            res.status@ == "healthy"@,
            res.timestamp == now,
            res.service@ == service@,
            res.database_status@ == "healthy"@,
    {
        HealthResponse {
            status: "healthy".to_owned(),
            timestamp: now,
            service,
            database_status: "healthy".to_owned(),
        }
    }
}

/// The health answer as of `now`: the store is reached by listing one user,
/// which cannot fail, so the state is healthy.
pub fn health_check_at(service: &UserServiceImpl, now: i64) -> (res: ApiResponse<HealthResponse>)
    ensures
        res.success,
        res.error is None,
        res.meta is None,
        res.data is Some,
        res.data->0.status@ == "healthy"@,
        res.data->0.database_status@ == "healthy"@,
        res.data->0.service@ == "rust-boilerplate"@,
        res.data->0.timestamp == now,
{
    let _probe = service.list_users(ListUsersRequest { page: Some(1), limit: Some(1) });
    success_response(HealthResponse::healthy_at("rust-boilerplate".to_owned(), now))
}

/// The health answer.
pub fn health_check(service: &UserServiceImpl) -> (res: ApiResponse<HealthResponse>)
    ensures
        res.success,
        res.error is None,
        res.meta is None,
        res.data is Some,
        res.data->0.status@ == "healthy"@,
        res.data->0.database_status@ == "healthy"@,
        res.data->0.service@ == "rust-boilerplate"@,
{
    health_check_at(service, now_micros())
}

/// A readiness answer: ready, with a healthy database and healthy memory.
pub open spec fn is_ready_answer(res: ApiResponse<ReadyResponse>) -> bool {
    &&& res.success
    &&& res.error is None
    &&& res.meta is None
    &&& res.data is Some
    &&& res.data->0.status@ == "ready"@
    &&& res.data->0.checks@.len() == 2
    &&& res.data->0.checks@[0].name@ == "database"@
    &&& res.data->0.checks@[0].status@ == "healthy"@
    &&& res.data->0.checks@[1].name@ == "memory"@
    &&& res.data->0.checks@[1].status@ == "healthy"@
}

/// A liveness answer: alive.
pub open spec fn is_live_answer(res: ApiResponse<LiveResponse>) -> bool {
    &&& res.success
    &&& res.error is None
    &&& res.meta is None
    &&& res.data is Some
    &&& res.data->0.status@ == "alive"@
}

/// The readiness answer as of `now`.
pub fn readiness_check_at(now: i64) -> (res: ApiResponse<ReadyResponse>)
    ensures
        is_ready_answer(res),
        res.data->0.timestamp == now,
{
    let mut checks: Vec<HealthCheck> = Vec::new();
    checks.push(HealthCheck { name: "database".to_owned(), status: "healthy".to_owned() });
    checks.push(HealthCheck { name: "memory".to_owned(), status: "healthy".to_owned() });
    success_response(ReadyResponse { status: "ready".to_owned(), timestamp: now, checks })
}

/// The readiness answer, as of now.
pub fn readiness_check() -> (res: ApiResponse<ReadyResponse>)
    ensures
        is_ready_answer(res),
{
    readiness_check_at(now_micros())
}

/// The liveness answer as of `now`.
pub fn liveness_check_at(now: i64) -> (res: ApiResponse<LiveResponse>)
    ensures
        is_live_answer(res),
        res.data->0.timestamp == now,
{
    success_response(LiveResponse { status: "alive".to_owned(), timestamp: now })
}

/// The liveness answer, as of now.
pub fn liveness_check() -> (res: ApiResponse<LiveResponse>)
    ensures
        is_live_answer(res),
{
    liveness_check_at(now_micros())
}

} // verus!
