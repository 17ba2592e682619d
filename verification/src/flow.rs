//! The decisions of a proxied request, as a state machine.
//!
//! Each endpoint checks the caller's bearer token, (for the Responses
//! endpoint) checks the request body, sends the request upstream, and when upstream answers 401 refreshes the Codex login once
//! and sends the request a second time. The caller performs the actions
//! (the upstream calls, the refresh, the replies) and feeds back what
//! happened; `next_step` decides what comes next.

use vstd::prelude::*;

verus! {

/// The endpoint a request came in on.
#[derive(Clone, Copy, Debug, PartialEq, Eq, Structural)]
pub enum ProxyRoute {
    /// `GET /models`: the Codex catalog, passed through.
    CodexModels,
    /// `GET /v1/models`: the catalog projected onto the OpenAI list.
    OpenAiModels,
    /// `POST /v1/responses`: the Responses stream, passed through.
    Responses,
}

/// Where a request stands.
#[derive(Clone, Copy, Debug, PartialEq, Eq, Structural)]
pub enum ProxyPhase {
    AwaitingAuthorization,
    AwaitingBodyCheck,
    AwaitingFirstReply,
    AwaitingRefresh,
    AwaitingSecondReply,
    Finished,
}

/// A request in flight: its endpoint and where it stands.
#[derive(Clone, Copy, Debug, PartialEq, Eq, Structural)]
pub struct ProxyFlow {
    pub route: ProxyRoute,
    pub phase: ProxyPhase,
}

/// What the caller reports back.
#[derive(Clone, Copy, Debug, PartialEq, Eq, Structural)]
pub enum ProxyEvent {
    /// The outcome of the bearer check.
    Authorization { authorized: bool },
    /// The outcome of normalizing the request body.
    BodyChecked { accepted: bool },
    /// Upstream answered with this status.
    UpstreamReply { status: u16 },
    /// The Codex login was refreshed.
    RefreshSucceeded,
    /// Refreshing the Codex login failed.
    RefreshFailed,
}

/// What the caller is to do next.
#[derive(Clone, Copy, Debug, PartialEq, Eq, Structural)]
pub enum ProxyAction {
    /// Answer 401 with the proxy's own message.
    RejectUnauthorized,
    /// Normalize the request body.
    CheckBody,
    /// Answer 400 with the reason the body was refused.
    RefuseBody,
    /// Send the request upstream.
    SendUpstream,
    /// Refresh the Codex login.
    RefreshAuth,
    /// Pass upstream's reply to the caller as it is.
    DeliverReply,
    /// Project the upstream catalog onto the OpenAI list and answer with it.
    ProjectCatalog,
    /// Answer 401 with the refresh error.
    FailRefresh,
    /// The event does not fit where the request stands: nothing to do.
    Ignore,
}

/// A success status, as `StatusCode::is_success` tells: 200 to 299.
pub open spec fn is_success_status(status: u16) -> bool {
    200 <= status && status <= 299
}

/// How an upstream reply that is final goes to the caller.
pub open spec fn delivery(route: ProxyRoute, status: u16) -> ProxyAction {
    if route == ProxyRoute::OpenAiModels && is_success_status(status) {
        ProxyAction::ProjectCatalog
    } else {
        ProxyAction::DeliverReply
    }
}

/// The transition table.
pub open spec fn flow_step(flow: ProxyFlow, event: ProxyEvent) -> (ProxyFlow, ProxyAction) {
    let finished = ProxyFlow { phase: ProxyPhase::Finished, ..flow };
    match (flow.phase, event) {
        (ProxyPhase::AwaitingAuthorization, ProxyEvent::Authorization { authorized }) => if !authorized {
            (finished, ProxyAction::RejectUnauthorized)
        } else if flow.route == ProxyRoute::Responses {
            (ProxyFlow { phase: ProxyPhase::AwaitingBodyCheck, ..flow }, ProxyAction::CheckBody)
        } else {
            (ProxyFlow { phase: ProxyPhase::AwaitingFirstReply, ..flow }, ProxyAction::SendUpstream)
        },
        (ProxyPhase::AwaitingBodyCheck, ProxyEvent::BodyChecked { accepted }) => if accepted {
            (ProxyFlow { phase: ProxyPhase::AwaitingFirstReply, ..flow }, ProxyAction::SendUpstream)
        } else {
            (finished, ProxyAction::RefuseBody)
        },
        (ProxyPhase::AwaitingFirstReply, ProxyEvent::UpstreamReply { status }) => if status == 401 {
            (ProxyFlow { phase: ProxyPhase::AwaitingRefresh, ..flow }, ProxyAction::RefreshAuth)
        } else {
            (finished, delivery(flow.route, status))
        },
        (ProxyPhase::AwaitingRefresh, ProxyEvent::RefreshSucceeded) => (
            ProxyFlow { phase: ProxyPhase::AwaitingSecondReply, ..flow },
            ProxyAction::SendUpstream,
        ),
        (ProxyPhase::AwaitingRefresh, ProxyEvent::RefreshFailed) => (
            finished,
            ProxyAction::FailRefresh,
        ),
        (ProxyPhase::AwaitingSecondReply, ProxyEvent::UpstreamReply { status }) => (
            finished,
            delivery(flow.route, status),
        ),
        _ => (flow, ProxyAction::Ignore),
    }
}

/// A request that has just come in on `route`.
pub fn start_flow(route: ProxyRoute) -> (flow: ProxyFlow)
    ensures
        flow == (ProxyFlow { route, phase: ProxyPhase::AwaitingAuthorization }),
{
    ProxyFlow { route, phase: ProxyPhase::AwaitingAuthorization }
}

/// Whether a status is a success status (200 to 299).
pub fn status_is_success(status: u16) -> (success: bool)
    ensures
        success == is_success_status(status),
{
    200 <= status && status <= 299
}

/// The next state of a request and what to do, given what just happened.
pub fn next_step(flow: ProxyFlow, event: ProxyEvent) -> (next: (ProxyFlow, ProxyAction))
    ensures
        next == flow_step(flow, event),
{
    let finished = ProxyFlow { route: flow.route, phase: ProxyPhase::Finished };
    let deliver = |status: u16| -> (action: ProxyAction)
        ensures
            action == delivery(flow.route, status),
        {
            if flow.route == ProxyRoute::OpenAiModels && status_is_success(status) {
                ProxyAction::ProjectCatalog
            } else {
                ProxyAction::DeliverReply
            }
        };
    match (flow.phase, event) {
        (ProxyPhase::AwaitingAuthorization, ProxyEvent::Authorization { authorized }) => if !authorized {
            (finished, ProxyAction::RejectUnauthorized)
        } else if flow.route == ProxyRoute::Responses {
            (
                ProxyFlow { route: flow.route, phase: ProxyPhase::AwaitingBodyCheck },
                ProxyAction::CheckBody,
            )
        } else {
            (
                ProxyFlow { route: flow.route, phase: ProxyPhase::AwaitingFirstReply },
                ProxyAction::SendUpstream,
            )
        },
        (ProxyPhase::AwaitingBodyCheck, ProxyEvent::BodyChecked { accepted }) => if accepted {
            (
                ProxyFlow { route: flow.route, phase: ProxyPhase::AwaitingFirstReply },
                ProxyAction::SendUpstream,
            )
        } else {
            (finished, ProxyAction::RefuseBody)
        },
        (ProxyPhase::AwaitingFirstReply, ProxyEvent::UpstreamReply { status }) => if status == 401 {
            (
                ProxyFlow { route: flow.route, phase: ProxyPhase::AwaitingRefresh },
                ProxyAction::RefreshAuth,
            )
        } else {
            (finished, deliver(status))
        },
        (ProxyPhase::AwaitingRefresh, ProxyEvent::RefreshSucceeded) => (
            ProxyFlow { route: flow.route, phase: ProxyPhase::AwaitingSecondReply },
            ProxyAction::SendUpstream,
        ),
        (ProxyPhase::AwaitingRefresh, ProxyEvent::RefreshFailed) => (
            finished,
            ProxyAction::FailRefresh,
        ),
        (ProxyPhase::AwaitingSecondReply, ProxyEvent::UpstreamReply { status }) => (
            finished,
            deliver(status),
        ),
        _ => (flow, ProxyAction::Ignore),
    }
}

/// The actions taken when the events happen one after another.
pub open spec fn run_actions(flow: ProxyFlow, events: Seq<ProxyEvent>) -> Seq<ProxyAction>
    decreases events.len(),
{
    if events.len() == 0 {
        Seq::empty()
    } else {
        let (next, action) = flow_step(flow, events[0]);
        seq![action] + run_actions(next, events.drop_first())
    }
}

/// How many times `action` occurs.
pub open spec fn count_action(actions: Seq<ProxyAction>, action: ProxyAction) -> nat
    decreases actions.len(),
{
    if actions.len() == 0 {
        0
    } else {
        (if actions[0] == action {
            1nat
        } else {
            0nat
        }) + count_action(actions.drop_first(), action)
    }
}

/// Upstream sends still possible from a phase.
pub open spec fn sends_left(phase: ProxyPhase) -> nat {
    match phase {
        ProxyPhase::AwaitingAuthorization => 2,
        ProxyPhase::AwaitingBodyCheck => 2,
        ProxyPhase::AwaitingFirstReply => 1,
        ProxyPhase::AwaitingRefresh => 1,
        _ => 0,
    }
}

/// Refreshes still possible from a phase.
pub open spec fn refreshes_left(phase: ProxyPhase) -> nat {
    match phase {
        ProxyPhase::AwaitingAuthorization => 1,
        ProxyPhase::AwaitingBodyCheck => 1,
        ProxyPhase::AwaitingFirstReply => 1,
        _ => 0,
    }
}

proof fn lemma_run_bounds(flow: ProxyFlow, events: Seq<ProxyEvent>)
    ensures
        count_action(run_actions(flow, events), ProxyAction::SendUpstream) <= sends_left(
            flow.phase,
        ),
        count_action(run_actions(flow, events), ProxyAction::RefreshAuth) <= refreshes_left(
            flow.phase,
        ),
    decreases events.len(),
{
    if events.len() > 0 {
        let (next, action) = flow_step(flow, events[0]);
        lemma_run_bounds(next, events.drop_first());
        let actions = run_actions(flow, events);
        assert(actions.drop_first() =~= run_actions(next, events.drop_first()));
    }
}

/// However upstream and the refresh behave, a request is sent upstream at
/// most twice and the Codex login is refreshed at most once.
pub proof fn law_at_most_one_retry(route: ProxyRoute, events: Seq<ProxyEvent>)
    ensures
        count_action(
            run_actions(ProxyFlow { route, phase: ProxyPhase::AwaitingAuthorization }, events),
            ProxyAction::SendUpstream,
        ) <= 2,
        count_action(
            run_actions(ProxyFlow { route, phase: ProxyPhase::AwaitingAuthorization }, events),
            ProxyAction::RefreshAuth,
        ) <= 1,
{
    lemma_run_bounds(ProxyFlow { route, phase: ProxyPhase::AwaitingAuthorization }, events);
}

proof fn lemma_finished_does_nothing(flow: ProxyFlow, events: Seq<ProxyEvent>)
    requires
        flow.phase == ProxyPhase::Finished,
    ensures
        forall|i: int|
            0 <= i < events.len() ==> #[trigger] run_actions(flow, events)[i]
                == ProxyAction::Ignore,
        run_actions(flow, events).len() == events.len(),
    decreases events.len(),
{
    if events.len() > 0 {
        lemma_finished_does_nothing(flow, events.drop_first());
        assert forall|i: int| 0 <= i < events.len() implies #[trigger] run_actions(
            flow,
            events,
        )[i] == ProxyAction::Ignore by {
            if i > 0 {
                assert(run_actions(flow, events)[i] == run_actions(flow, events.drop_first())[i
                    - 1]);
            }
        }
    }
}

/// A caller without the proxy key is refused, and nothing it does
/// afterwards sends its request upstream or refreshes the login.
pub proof fn law_unauthorized_request_is_never_forwarded(
    route: ProxyRoute,
    events: Seq<ProxyEvent>,
)
    requires
        events.len() > 0,
        events[0] == (ProxyEvent::Authorization { authorized: false }),
    ensures
        run_actions(ProxyFlow { route, phase: ProxyPhase::AwaitingAuthorization }, events)[0]
            == ProxyAction::RejectUnauthorized,
        forall|i: int|
            1 <= i < events.len() ==> #[trigger] run_actions(
                ProxyFlow { route, phase: ProxyPhase::AwaitingAuthorization },
                events,
            )[i] == ProxyAction::Ignore,
{
    let flow = ProxyFlow { route, phase: ProxyPhase::AwaitingAuthorization };
    let finished = ProxyFlow { route, phase: ProxyPhase::Finished };
    lemma_finished_does_nothing(finished, events.drop_first());
    assert forall|i: int| 1 <= i < events.len() implies #[trigger] run_actions(flow, events)[i]
        == ProxyAction::Ignore by {
        assert(run_actions(flow, events)[i] == run_actions(finished, events.drop_first())[i - 1]);
    }
}

/// A Responses request whose body is refused is answered 400 and is never
/// sent upstream, whatever is reported afterwards.
pub proof fn law_refused_body_is_never_forwarded(events: Seq<ProxyEvent>)
    requires
        events.len() > 1,
        events[0] == (ProxyEvent::Authorization { authorized: true }),
        events[1] == (ProxyEvent::BodyChecked { accepted: false }),
    ensures
        run_actions(
            ProxyFlow { route: ProxyRoute::Responses, phase: ProxyPhase::AwaitingAuthorization },
            events,
        )[1] == ProxyAction::RefuseBody,
        forall|i: int|
            2 <= i < events.len() ==> #[trigger] run_actions(
                ProxyFlow {
                    route: ProxyRoute::Responses,
                    phase: ProxyPhase::AwaitingAuthorization,
                },
                events,
            )[i] == ProxyAction::Ignore,
{
    let flow = ProxyFlow { route: ProxyRoute::Responses, phase: ProxyPhase::AwaitingAuthorization };
    let checking = ProxyFlow { route: ProxyRoute::Responses, phase: ProxyPhase::AwaitingBodyCheck };
    let finished = ProxyFlow { route: ProxyRoute::Responses, phase: ProxyPhase::Finished };
    let rest = events.drop_first();
    assert(rest[0] == events[1]);
    lemma_finished_does_nothing(finished, rest.drop_first());
    assert(run_actions(flow, events).drop_first() =~= run_actions(checking, rest));
    assert forall|i: int| 2 <= i < events.len() implies #[trigger] run_actions(flow, events)[i]
        == ProxyAction::Ignore by {
        assert(run_actions(flow, events)[i] == run_actions(checking, rest)[i - 1]);
        assert(run_actions(checking, rest)[i - 1] == run_actions(finished, rest.drop_first())[i
            - 2]);
    }
}

/// A final upstream reply (the first one unless it is a 401, or the one
/// after a refresh) goes to the caller by route and status alone: on
/// `/v1/models` a success status (200 to 299) is projected onto the OpenAI
/// list and any other status is passed through; on the other routes every
/// reply is passed through. Whether a retry happened makes no difference.
pub proof fn law_final_reply_goes_by_route_and_status(route: ProxyRoute, status: u16)
    ensures
        status != 401 ==> flow_step(
            ProxyFlow { route, phase: ProxyPhase::AwaitingFirstReply },
            ProxyEvent::UpstreamReply { status },
        ) == (
            ProxyFlow { route, phase: ProxyPhase::Finished },
            if route == ProxyRoute::OpenAiModels && 200 <= status && status <= 299 {
                ProxyAction::ProjectCatalog
            } else {
                ProxyAction::DeliverReply
            },
        ),
        flow_step(
            ProxyFlow { route, phase: ProxyPhase::AwaitingSecondReply },
            ProxyEvent::UpstreamReply { status },
        ) == (
            ProxyFlow { route, phase: ProxyPhase::Finished },
            if route == ProxyRoute::OpenAiModels && 200 <= status && status <= 299 {
                ProxyAction::ProjectCatalog
            } else {
                ProxyAction::DeliverReply
            },
        ),
        status == 401 ==> flow_step(
            ProxyFlow { route, phase: ProxyPhase::AwaitingFirstReply },
            ProxyEvent::UpstreamReply { status },
        ) == (ProxyFlow { route, phase: ProxyPhase::AwaitingRefresh }, ProxyAction::RefreshAuth),
{
}

} // verus!
