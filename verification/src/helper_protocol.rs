//! Messages exchanged with the privileged helper.
use vstd::prelude::*;
use crate::fan_control::FanControlPlan;

verus! {

/// A request to the helper.
pub enum HelperRequest {
    Ping,
    ApplyPlan { plan: FanControlPlan },
    ReadStatus,
}

/// What the helper is and where it listens.
#[derive(Clone)]
pub struct HelperStatus {
    pub version: String,
    pub socket_path: String,
}

/// The helper's answer to a request.
#[derive(Clone)]
pub struct HelperResponse {
    pub ok: bool,
    pub message: String,
    pub status: Option<HelperStatus>,
}

impl HelperResponse {
    /// A success without a status.
    pub fn ok(message: String) -> (r: Self)
        ensures
            r.ok,
            r.message@ == message@,
            r.status is None,
    {
        HelperResponse { ok: true, message, status: None }
    }

    /// A success that carries the helper's status.
    pub fn ok_with_status(message: String, status: HelperStatus) -> (r: Self)
        ensures
            r.ok,
            r.message@ == message@,
            r.status == Some(status),
    {
        HelperResponse { ok: true, message, status: Some(status) }
    }

    /// A failure.
    pub fn err(message: String) -> (r: Self)
        ensures
            !r.ok,
            r.message@ == message@,
            r.status is None,
    {
        HelperResponse { ok: false, message, status: None }
    }
}

} // verus!
