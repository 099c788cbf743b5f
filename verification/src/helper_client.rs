//! The client side of the helper protocol: which helper to talk to, how long
//! to wait for it, and what its replies mean.
use vstd::prelude::*;
use crate::helper_paths::helper_socket_path;
use crate::helper_protocol::{HelperRequest, HelperResponse, HelperStatus};
use crate::text::trim;

verus! {

/// Seconds to wait for a reply to a short request, and for any write.
pub const HELPER_REQUEST_TIMEOUT: u64 = 3;

/// Seconds to wait for the reply to a plan: the helper may spend up to ten
/// seconds unlocking manual fan control before it answers.
pub const HELPER_APPLY_PLAN_TIMEOUT: u64 = 15;

/// Why a request to the helper did not succeed.
pub enum HelperError {
    /// The helper answered with a failure and this message.
    Rejected { message: String },
    /// A ping succeeded but carried no status.
    PingWithoutStatus,
    /// A status request succeeded but carried no status.
    StatusWithoutPayload,
    /// The reply line was empty.
    EmptyResponse,
    /// The exchange itself failed (connect, write, read, decode).
    Transport { message: String },
}

impl HelperError {
    /// The text that describes the error.
    pub open spec fn text(&self) -> Seq<char> {
        match self {
            HelperError::Rejected { message } => message@,
            HelperError::PingWithoutStatus => "helper ping succeeded but returned no status"@,
            HelperError::StatusWithoutPayload => "helper returned no status payload"@,
            HelperError::EmptyResponse => "helper returned an empty response"@,
            HelperError::Transport { message } => message@,
        }
    }

    pub fn message(&self) -> (r: String)
        ensures
            r@ == self.text(),
    {
        match self {
            HelperError::Rejected { message } => message.clone(),
            HelperError::PingWithoutStatus => "helper ping succeeded but returned no status".to_owned(),
            HelperError::StatusWithoutPayload => "helper returned no status payload".to_owned(),
            HelperError::EmptyResponse => "helper returned an empty response".to_owned(),
            HelperError::Transport { message } => message.clone(),
        }
    }
}

/// A client of the helper listening on a Unix socket.
#[derive(Clone)]
pub struct HelperClient {
    socket_path: String,
}

impl HelperClient {
    /// The socket the client talks to.
    pub closed spec fn path(&self) -> Seq<char> {
        self.socket_path@
    }

    pub fn new(socket_path: String) -> (r: Self)
        ensures
            r.path() == socket_path@,
    {
        HelperClient { socket_path }
    }

    /// The client of the system-wide helper.
    pub fn system() -> (r: Self)
        ensures
            r.path() == "/var/run/apple-silicon-fan-control-helper.sock"@,
    {
        Self::new(helper_socket_path())
    }

    pub fn socket_path(&self) -> (r: &String)
        ensures
            r@ == self.path(),
    {
        &self.socket_path
    }

    /// What a reply to a ping means: the helper's status, or why there is none.
    pub fn ping_reply(response: HelperResponse) -> (r: Result<HelperStatus, HelperError>)
        ensures
            !response.ok ==> (r matches Err(HelperError::Rejected { message }) && message@
                == response.message@),
            response.ok && response.status is None ==> r matches Err(
                HelperError::PingWithoutStatus,
            ),
            response.ok && response.status is Some ==> r == Ok::<HelperStatus, HelperError>(
                response.status.unwrap(),
            ),
    {
        if !response.ok {
            return Err(HelperError::Rejected { message: response.message });
        }
        match response.status {
            Some(status) => Ok(status),
            None => Err(HelperError::PingWithoutStatus),
        }
    }

    /// What a reply to a status request means.
    pub fn read_status_reply(response: HelperResponse) -> (r: Result<HelperStatus, HelperError>)
        ensures
            !response.ok ==> (r matches Err(HelperError::Rejected { message }) && message@
                == response.message@),
            response.ok && response.status is None ==> r matches Err(
                HelperError::StatusWithoutPayload,
            ),
            response.ok && response.status is Some ==> r == Ok::<HelperStatus, HelperError>(
                response.status.unwrap(),
            ),
    {
        if !response.ok {
            return Err(HelperError::Rejected { message: response.message });
        }
        match response.status {
            Some(status) => Ok(status),
            None => Err(HelperError::StatusWithoutPayload),
        }
    }

    /// What a reply to a plan means.
    pub fn apply_plan_reply(response: HelperResponse) -> (r: Result<(), HelperError>)
        ensures
            response.ok ==> r is Ok,
            !response.ok ==> (r matches Err(HelperError::Rejected { message }) && message@
                == response.message@),
    {
        if response.ok {
            Ok(())
        } else {
            Err(HelperError::Rejected { message: response.message })
        }
    }
}

/// The reply line without surrounding whitespace; a blank line is an error.
pub fn check_response_line(line: &str) -> (r: Result<String, HelperError>)
    ensures
        trim(line@).len() == 0 ==> r matches Err(HelperError::EmptyResponse),
        trim(line@).len() > 0 ==> (r matches Ok(s) && s@ == trim(line@)),
{
    let t = crate::text::trim_str(line);
    if t.as_str().is_empty() {
        Err(HelperError::EmptyResponse)
    } else {
        Ok(t)
    }
}

/// How long to wait for the reply to a request, in seconds.
pub fn response_timeout(request: &HelperRequest) -> (r: u64)
    ensures
        r == (if request is ApplyPlan {
            HELPER_APPLY_PLAN_TIMEOUT
        } else {
            HELPER_REQUEST_TIMEOUT
        }),
{
    match request {
        HelperRequest::ApplyPlan { .. } => HELPER_APPLY_PLAN_TIMEOUT,
        HelperRequest::Ping | HelperRequest::ReadStatus => HELPER_REQUEST_TIMEOUT,
    }
}

} // verus!
