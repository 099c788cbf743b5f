//! How fan writes reach the controller: directly as root, through the
//! privileged helper, or not at all.
use vstd::prelude::*;
use crate::fan_control::FanControlPlan;
use crate::helper_client::HelperClient;

verus! {

/// The way fan writes are carried out.
#[derive(Clone)]
pub enum ControlBackend {
    DirectRoot,
    Helper(HelperClient),
    Unavailable,
}

/// Where a plan goes.
#[derive(Clone, Copy, Debug, PartialEq, Eq, Structural)]
pub enum PlanRoute {
    /// The plan is empty: nothing to do.
    Skip,
    /// Apply the plan's schedule to the controller directly.
    Direct,
    /// Send the plan to the helper.
    Helper,
}

/// Why a plan cannot be applied.
#[derive(Clone, Copy, Debug, PartialEq, Eq, Structural)]
pub enum BackendError {
    NoWriteBackend,
}

impl BackendError {
    pub fn message(&self) -> (r: String)
        ensures
            r@ == "no write backend available"@,
    {
        "no write backend available".to_owned()
    }
}

impl ControlBackend {
    /// The backend to use: direct access when running as root, otherwise the
    /// system helper if it answered a ping, otherwise none.
    pub fn detect(is_root: bool, helper_reachable: bool) -> (r: Self)
        ensures
            is_root ==> r is DirectRoot,
            !is_root && helper_reachable ==> (r matches ControlBackend::Helper(c) && c.path()
                == "/var/run/apple-silicon-fan-control-helper.sock"@),
            !is_root && !helper_reachable ==> r is Unavailable,
    {
        if is_root {
            return ControlBackend::DirectRoot;
        }
        if helper_reachable {
            ControlBackend::Helper(HelperClient::system())
        } else {
            ControlBackend::Unavailable
        }
    }

    pub fn can_write(&self) -> (r: bool)
        ensures
            r == !(self is Unavailable),
    {
        !matches!(self, ControlBackend::Unavailable)
    }

    /// A description of the backend for people.
    pub fn label(&self) -> (r: String)
        ensures
            self is DirectRoot ==> r@ == "direct root access"@,
            self is Unavailable ==> r@ == "read-only (no root/helper)"@,
            self matches ControlBackend::Helper(c) ==> r@ == "privileged helper ("@ + c.path()
                + ")"@,
    {
        match self {
            ControlBackend::DirectRoot => "direct root access".to_owned(),
            ControlBackend::Helper(client) => {
                let mut s = "privileged helper (".to_owned();
                s.append(client.socket_path().as_str());
                s.append(")");
                s
            },
            ControlBackend::Unavailable => "read-only (no root/helper)".to_owned(),
        }
    }

    /// Where a plan goes: an empty plan needs nothing; otherwise the backend
    /// decides, and a backend that cannot write refuses the plan.
    pub fn route_plan(&self, plan: &FanControlPlan) -> (r: Result<PlanRoute, BackendError>)
        ensures
            plan.actions@.len() == 0 ==> r == Ok::<PlanRoute, BackendError>(PlanRoute::Skip),
            plan.actions@.len() > 0 ==> r == (match self {
                ControlBackend::DirectRoot => Ok::<PlanRoute, BackendError>(PlanRoute::Direct),
                ControlBackend::Helper(_) => Ok(PlanRoute::Helper),
                ControlBackend::Unavailable => Err(BackendError::NoWriteBackend),
            }),
    {
        if plan.is_empty() {
            return Ok(PlanRoute::Skip);
        }
        match self {
            ControlBackend::DirectRoot => Ok(PlanRoute::Direct),
            ControlBackend::Helper(_) => Ok(PlanRoute::Helper),
            ControlBackend::Unavailable => Err(BackendError::NoWriteBackend),
        }
    }
}

} // verus!
