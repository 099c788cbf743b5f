//! The decisions of the privileged helper: what a request asks for and how
//! the helper answers.
use vstd::prelude::*;
use crate::fan_control::FanControlPlan;
use crate::helper_protocol::{HelperRequest, HelperResponse, HelperStatus};
use crate::text::{trim, trim_str};

verus! {

/// What the helper does for a request.
pub enum ServerAction {
    /// Answer with the helper's status.
    ReportStatus,
    /// Apply the plan to the controller, then answer with the outcome.
    ApplyPlan(FanControlPlan),
}

/// Pings and status requests are answered with the status; a plan is applied.
pub fn request_action(request: HelperRequest) -> (r: ServerAction)
    ensures
        match request {
            HelperRequest::ApplyPlan { plan } => r matches ServerAction::ApplyPlan(p) && p.actions@
                == plan.actions@,
            _ => r is ReportStatus,
        },
{
    match request {
        HelperRequest::Ping | HelperRequest::ReadStatus => ServerAction::ReportStatus,
        HelperRequest::ApplyPlan { plan } => ServerAction::ApplyPlan(plan),
    }
}

/// The answer that reports the helper's status.
pub fn status_response(version: String, socket_path: String) -> (r: HelperResponse)
    ensures
        r.ok,
        r.message@ == "helper is running"@,
        r.status matches Some(s) && s.version@ == version@ && s.socket_path@ == socket_path@,
{
    HelperResponse::ok_with_status(
        "helper is running".to_owned(),
        HelperStatus { version, socket_path },
    )
}

/// The answer to a plan: success, or the failure's message.
pub fn plan_response(outcome: Result<(), String>) -> (r: HelperResponse)
    ensures
        r.status is None,
        r.ok == outcome is Ok,
        outcome is Ok ==> r.message@ == "plan applied"@,
        outcome matches Err(m) ==> r.message@ == m@,
{
    match outcome {
        Ok(()) => HelperResponse::ok("plan applied".to_owned()),
        Err(message) => HelperResponse::err(message),
    }
}

/// Why a request line cannot be used.
#[derive(Clone, Copy, Debug, PartialEq, Eq, Structural)]
pub enum RequestError {
    EmptyRequest,
}

impl RequestError {
    pub fn message(&self) -> (r: String)
        ensures
            r@ == "helper request was empty"@,
    {
        "helper request was empty".to_owned()
    }
}

/// The request line without surrounding whitespace; a blank line is an error.
pub fn check_request_line(line: &str) -> (r: Result<String, RequestError>)
    ensures
        trim(line@).len() == 0 ==> r == Err::<String, RequestError>(RequestError::EmptyRequest),
        trim(line@).len() > 0 ==> (r matches Ok(s) && s@ == trim(line@)),
{
    let t = trim_str(line);
    if t.as_str().is_empty() {
        Err(RequestError::EmptyRequest)
    } else {
        Ok(t)
    }
}

} // verus!
