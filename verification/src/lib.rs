//! Orchestration of agent sessions bound to git repositories.

use vstd::prelude::*;

pub mod db;
pub mod error;
pub mod git;
pub mod ids;
pub mod models;
pub mod ralph;
pub mod repos;
pub mod service;
pub mod session;
pub mod sessions;
pub mod text;

verus! {

/// The answer of the health endpoint.
#[derive(Clone, Debug, PartialEq, Eq)]
pub struct HealthResponse {
    pub status: String,
}

/// The answer of a server that is up: the status `ok`.
pub fn health_check() -> (r: HealthResponse)
    ensures
        r.status@ == "ok"@,
{
    HealthResponse { status: String::from_str("ok") }
}

} // verus!
