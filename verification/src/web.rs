//! The caller-side tail of a submission: turning whatever came back through
//! the responder into the one response the HTTP surface reports.

use vstd::prelude::*;
use vstd::string::StringExecFns;

use crate::command::NetworkCommand;
use crate::command::NetworkResponse;
use crate::fault::CauseChain;
use crate::fault::FaultKind;

verus! {

/// What the HTTP surface reports for one request: the typed response of a
/// handler that succeeded, or the cause chain of whatever failed.
pub enum AppResponse {
    Network(NetworkResponse),
    Error(CauseChain),
}

/// The human-readable name of the operation a command asks for, used in the
/// context frame wrapped around any failure of that command.
pub open spec fn spec_action_label(c: NetworkCommand) -> Seq<char> {
    match c {
        NetworkCommand::CheckConnectivity => "check connectivity"@,
        NetworkCommand::ListConnections => "list actions"@,
        NetworkCommand::ListWiFiNetworks => "list wifi networks"@,
    }
}

pub fn action_label(command: &NetworkCommand) -> (r: String)
    ensures
        r@ == spec_action_label(*command),
{
    match command {
        NetworkCommand::CheckConnectivity => "check connectivity".to_owned(),
        NetworkCommand::ListConnections => "list actions".to_owned(),
        NetworkCommand::ListWiFiNetworks => "list wifi networks".to_owned(),
    }
}

/// The outermost context frame of a failed command.
pub open spec fn spec_failed_frame(c: NetworkCommand) -> Seq<char> {
    "Failed to "@ + spec_action_label(c)
}

/// The root cause reported when the responder yielded nothing: the worker
/// is gone, or the responder was dropped without a value.
pub open spec fn bridge_failure_root() -> Seq<char> {
    "Failed to receive network thread response"@
}

/// Turns what the caller's await step observed into the one reported
/// response. `received` is `None` when the responder yielded no value at
/// all (the bridge itself failed), and otherwise carries the handler's own
/// result. Every path wraps failures in the frame naming the operation.
pub fn resolve_submission(
    received: Option<Result<NetworkResponse, CauseChain>>,
    command: &NetworkCommand,
) -> (r: AppResponse)
    ensures
        received matches Some(Ok(resp)) ==> r == AppResponse::Network(resp),
        received matches Some(Err(e)) ==> (r matches AppResponse::Error(c) && c.wf()
            && c.kind_spec() == e.kind_spec() && c.frames_spec() =~= e.frames_spec().push(
            spec_failed_frame(*command),
        )),
        received is None ==> (r matches AppResponse::Error(c) && c.wf() && c.kind_spec() == FaultKind::Bridge
            && c.frames_spec() =~= seq![bridge_failure_root(), spec_failed_frame(*command)]),
        observation_of(r) == spec_observation(received),
{
    let action = action_label(command);
    let frame = "Failed to ".to_owned().concat(action.as_str());
    match received {
        Some(Ok(response)) => AppResponse::Network(response),
        Some(Err(cause)) => AppResponse::Error(cause.context(frame)),
        None => {
            let root = CauseChain::root(
                FaultKind::Bridge,
                "Failed to receive network thread response".to_owned(),
            );
            AppResponse::Error(root.context(frame))
        },
    }
}

/// The three ways a caller can see its submission end.
#[derive(Clone, Copy, PartialEq, Eq, Structural, Debug)]
pub enum Observation {
    /// The handler succeeded and its typed response arrived.
    Success,
    /// The handler reported a failure of its own, with its cause chain.
    HandlerFailure,
    /// The bridge failed: no value ever arrived.
    BridgeFailure,
}

/// How a reported response is observed. Total: every response is observed
/// in exactly one way.
pub open spec fn observation_of(r: AppResponse) -> Observation {
    match r {
        AppResponse::Network(_) => Observation::Success,
        AppResponse::Error(c) => if c.kind_spec() == FaultKind::Bridge {
            Observation::BridgeFailure
        } else {
            Observation::HandlerFailure
        },
    }
}

/// The observation each possible await result must lead to. A handler's own
/// failure is never reported with the bridge's kind, so the two failures
/// stay apart.
pub open spec fn spec_observation(received: Option<Result<NetworkResponse, CauseChain>>) -> Observation {
    match received {
        Some(Ok(_)) => Observation::Success,
        Some(Err(e)) => if e.kind_spec() == FaultKind::Bridge {
            Observation::BridgeFailure
        } else {
            Observation::HandlerFailure
        },
        None => Observation::BridgeFailure,
    }
}

/// Exactly-one observation: whatever a submission resolved to, the caller
/// sees exactly one of success, handler failure, or bridge failure — never
/// none of them, never two at once.
pub proof fn exactly_one_observation(r: AppResponse)
    ensures
        observation_of(r) is Success || observation_of(r) is HandlerFailure || observation_of(
            r,
        ) is BridgeFailure,
        observation_of(r) is Success ==> r is Network,
        observation_of(r) is HandlerFailure ==> (r matches AppResponse::Error(c) && c.kind_spec()
            != FaultKind::Bridge),
        observation_of(r) is BridgeFailure ==> (r matches AppResponse::Error(c) && c.kind_spec()
            == FaultKind::Bridge),
{
}

/// The usage text the root route answers with.
pub fn usage() -> (r: &'static str)
    ensures
        r@ == "Use /check-connectivity, /list-connections or /list-wifi-networks\n"@,
{
    "Use /check-connectivity, /list-connections or /list-wifi-networks\n"
}

impl AppResponse {
    /// The HTTP status the surface answers with: failures are server errors,
    /// successes are plain OK.
    pub fn status_code(&self) -> (s: u16)
        ensures
            s == 500 <==> self is Error,
            s == 200 <==> self is Network,
    {
        match self {
            AppResponse::Network(_) => 200,
            AppResponse::Error(_) => 500,
        }
    }
}

} // verus!
