//! The course of one upgrade, from the request to the end of the connection.
//!
//! The caller does the work and reports what happened; `advance` says where
//! the upgrade stands then and what is to be done next. The exchange over
//! HTTP ends with the one reply. What follows the reply 101 runs apart from
//! it: whatever fails there ends the connection and is seen by nobody else.

use crate::handshake::HandshakeError;
use crate::http::{BAD_REQUEST, SWITCHING_PROTOCOLS};
use crate::middleware::{reply_for, WrongMethodPolicy};
use vstd::prelude::*;

verus! {

/// Where an upgrade stands.
#[derive(Clone, Copy, Debug, PartialEq, Eq, Structural)]
pub enum UpgradeState {
    /// The request has come in.
    Received,
    /// The request is being examined.
    Validating,
    /// The request failed the examination. This is an end.
    Rejected,
    /// The request passed; the handler is looking at it.
    Accepted,
    /// The reply 101 has gone out; the transport has yet to release the
    /// connection.
    ResponseIssued,
    /// The transport has released the connection; it is being framed.
    Upgraded,
    /// The handler's callback works on the framed connection.
    Running,
    /// The connection is over. This is an end.
    Closed,
}

/// What the caller reports.
#[derive(Clone, Copy, Debug, PartialEq, Eq, Structural)]
pub enum UpgradeEvent {
    /// The examination has begun.
    ExaminationStarted,
    /// The request met every condition.
    ExaminationPassed,
    /// The request failed a condition.
    ExaminationFailed(HandshakeError),
    /// The handler returned its reply.
    HandlerReplied,
    /// The transport released the connection.
    TakeoverCompleted,
    /// The transport could not release the connection.
    TakeoverFailed,
    /// The connection is framed.
    StreamFramed,
    /// The connection could not be framed.
    FramingFailed,
    /// The callback returned, with or without a failure.
    CallbackReturned,
}

/// What the caller is to do next.
#[derive(Clone, Copy, Debug, PartialEq, Eq, Structural)]
pub enum UpgradeAction {
    /// Examine the request.
    Examine,
    /// Hand the request to the handler.
    CallHandler,
    /// Send the response with this status and end the exchange. After 101,
    /// wait apart from the exchange for the transport to release the
    /// connection.
    Reply { status: u16 },
    /// Stop the task that serves the request, without a reply.
    Abort,
    /// Frame the connection, as the server and with the configured limits.
    FrameStream,
    /// Run the handler's callback on the framed connection.
    RunCallback,
    /// Nothing.
    Nothing,
}

/// The transition of an upgrade. An event that has no place in a state
/// changes nothing.
pub open spec fn step(state: UpgradeState, event: UpgradeEvent, policy: WrongMethodPolicy) -> (
    UpgradeState,
    UpgradeAction,
) {
    match (state, event) {
        (UpgradeState::Received, UpgradeEvent::ExaminationStarted) => (
            UpgradeState::Validating,
            UpgradeAction::Examine,
        ),
        (UpgradeState::Validating, UpgradeEvent::ExaminationPassed) => (
            UpgradeState::Accepted,
            UpgradeAction::CallHandler,
        ),
        (UpgradeState::Validating, UpgradeEvent::ExaminationFailed(error)) => (
            UpgradeState::Rejected,
            if error == HandshakeError::WrongHttpMethod && policy == WrongMethodPolicy::Abort {
                UpgradeAction::Abort
            } else {
                UpgradeAction::Reply { status: BAD_REQUEST }
            },
        ),
        (UpgradeState::Accepted, UpgradeEvent::HandlerReplied) => (
            UpgradeState::ResponseIssued,
            UpgradeAction::Reply { status: SWITCHING_PROTOCOLS },
        ),
        (UpgradeState::ResponseIssued, UpgradeEvent::TakeoverCompleted) => (
            UpgradeState::Upgraded,
            UpgradeAction::FrameStream,
        ),
        (UpgradeState::ResponseIssued, UpgradeEvent::TakeoverFailed) => (
            UpgradeState::Closed,
            UpgradeAction::Nothing,
        ),
        (UpgradeState::Upgraded, UpgradeEvent::StreamFramed) => (
            UpgradeState::Running,
            UpgradeAction::RunCallback,
        ),
        (UpgradeState::Upgraded, UpgradeEvent::FramingFailed) => (
            UpgradeState::Closed,
            UpgradeAction::Nothing,
        ),
        (UpgradeState::Running, UpgradeEvent::CallbackReturned) => (
            UpgradeState::Closed,
            UpgradeAction::Nothing,
        ),
        _ => (state, UpgradeAction::Nothing),
    }
}

/// Takes an upgrade one step on: gives the state after `event` and what the
/// caller is to do.
pub fn advance(state: UpgradeState, event: UpgradeEvent, policy: WrongMethodPolicy) -> (next: (
    UpgradeState,
    UpgradeAction,
))
    ensures
        next == step(state, event, policy),
{
    match state {
        UpgradeState::Received => match event {
            UpgradeEvent::ExaminationStarted => (UpgradeState::Validating, UpgradeAction::Examine),
            _ => (state, UpgradeAction::Nothing),
        },
        UpgradeState::Validating => match event {
            UpgradeEvent::ExaminationPassed => (UpgradeState::Accepted, UpgradeAction::CallHandler),
            UpgradeEvent::ExaminationFailed(error) => {
                let abort = match (error, policy) {
                    (HandshakeError::WrongHttpMethod, WrongMethodPolicy::Abort) => true,
                    _ => false,
                };
                if abort {
                    (UpgradeState::Rejected, UpgradeAction::Abort)
                } else {
                    (UpgradeState::Rejected, UpgradeAction::Reply { status: BAD_REQUEST })
                }
            },
            _ => (state, UpgradeAction::Nothing),
        },
        UpgradeState::Accepted => match event {
            UpgradeEvent::HandlerReplied => (
                UpgradeState::ResponseIssued,
                UpgradeAction::Reply { status: SWITCHING_PROTOCOLS },
            ),
            _ => (state, UpgradeAction::Nothing),
        },
        UpgradeState::ResponseIssued => match event {
            UpgradeEvent::TakeoverCompleted => (UpgradeState::Upgraded, UpgradeAction::FrameStream),
            UpgradeEvent::TakeoverFailed => (UpgradeState::Closed, UpgradeAction::Nothing),
            _ => (state, UpgradeAction::Nothing),
        },
        UpgradeState::Upgraded => match event {
            UpgradeEvent::StreamFramed => (UpgradeState::Running, UpgradeAction::RunCallback),
            UpgradeEvent::FramingFailed => (UpgradeState::Closed, UpgradeAction::Nothing),
            _ => (state, UpgradeAction::Nothing),
        },
        UpgradeState::Running => match event {
            UpgradeEvent::CallbackReturned => (UpgradeState::Closed, UpgradeAction::Nothing),
            _ => (state, UpgradeAction::Nothing),
        },
        _ => (state, UpgradeAction::Nothing),
    }
}

/// The action ends the exchange over HTTP: a reply, or the stop that stands
/// in for one.
pub open spec fn ends_exchange(action: UpgradeAction) -> bool {
    action is Reply || action is Abort
}

/// The state after a run of events.
pub open spec fn state_after(
    state: UpgradeState,
    events: Seq<UpgradeEvent>,
    policy: WrongMethodPolicy,
) -> UpgradeState
    decreases events.len(),
{
    if events.len() == 0 {
        state
    } else {
        state_after(step(state, events[0], policy).0, events.drop_first(), policy)
    }
}

/// How many actions of a run of events end the exchange.
pub open spec fn exchange_ends(
    state: UpgradeState,
    events: Seq<UpgradeEvent>,
    policy: WrongMethodPolicy,
) -> nat
    decreases events.len(),
{
    if events.len() == 0 {
        0
    } else {
        let (next, action) = step(state, events[0], policy);
        let rest = exchange_ends(next, events.drop_first(), policy);
        if ends_exchange(action) {
            rest + 1
        } else {
            rest
        }
    }
}

/// The exchange over HTTP is still open in this state.
pub open spec fn exchange_open(state: UpgradeState) -> bool {
    state is Received || state is Validating || state is Accepted
}

/// One request, one reply. Whatever is reported in whatever order, an
/// upgrade ends its exchange at most once, and not at all once the exchange
/// has ended: nothing that happens after the reply 101, and nothing that
/// fails there, reaches the exchange.
pub proof fn law_exchange_ends_once(
    state: UpgradeState,
    events: Seq<UpgradeEvent>,
    policy: WrongMethodPolicy,
)
    ensures
        exchange_ends(state, events, policy) <= 1,
        !exchange_open(state) ==> exchange_ends(state, events, policy) == 0,
        !exchange_open(state) ==> !exchange_open(state_after(state, events, policy)),
    decreases events.len(),
{
    if events.len() > 0 {
        law_exchange_ends_once(step(state, events[0], policy).0, events.drop_first(), policy);
    }
}

/// The ends are final: no event moves an upgrade that was rejected or whose
/// connection is over, and none asks for anything then.
pub proof fn law_ends_are_final(state: UpgradeState, event: UpgradeEvent, policy: WrongMethodPolicy)
    requires
        state is Rejected || state is Closed,
    ensures
        step(state, event, policy) == (state, UpgradeAction::Nothing),
{
}

/// The reply 101 goes out only for a request that passed the examination
/// and that the handler has seen; a request that failed gets 400 or, for a
/// wrong method under the policy `Abort`, the stop.
pub proof fn law_replies_follow_the_examination(
    state: UpgradeState,
    event: UpgradeEvent,
    policy: WrongMethodPolicy,
)
    ensures
        step(state, event, policy).1 == (UpgradeAction::Reply { status: SWITCHING_PROTOCOLS })
            <==> state is Accepted && event is HandlerReplied,
        !(state is Accepted) && step(state, event, policy).0 is Accepted <==> state is Validating
            && event is ExaminationPassed,
        step(state, event, policy).1 == (UpgradeAction::Reply { status: BAD_REQUEST }) <==> state
            is Validating && event is ExaminationFailed && !(event
            == UpgradeEvent::ExaminationFailed(HandshakeError::WrongHttpMethod) && policy
            == WrongMethodPolicy::Abort),
        step(state, event, policy).1 is Abort <==> state is Validating && event
            == UpgradeEvent::ExaminationFailed(HandshakeError::WrongHttpMethod) && policy
            == WrongMethodPolicy::Abort,
{
}

/// The course agrees with the middleware: the step that ends the exchange
/// asks for the reply that the middleware gives for the same examination,
/// and for the stop where the middleware gives none.
pub proof fn law_course_agrees_with_middleware(
    verdict: Result<Seq<u8>, HandshakeError>,
    policy: WrongMethodPolicy,
)
    ensures
        match verdict {
            Ok(_) => step(UpgradeState::Accepted, UpgradeEvent::HandlerReplied, policy).1 == (
            UpgradeAction::Reply { status: reply_for(verdict, policy)->Some_0.status }),
            Err(error) => step(
                UpgradeState::Validating,
                UpgradeEvent::ExaminationFailed(error),
                policy,
            ).1 == match reply_for(verdict, policy) {
                Some(reply) => UpgradeAction::Reply { status: reply.status },
                None => UpgradeAction::Abort,
            },
        },
{
}

/// The course of an upgrade that succeeds, step by step.
pub proof fn law_successful_course(policy: WrongMethodPolicy)
    ensures
        state_after(
            UpgradeState::Received,
            seq![
                UpgradeEvent::ExaminationStarted,
                UpgradeEvent::ExaminationPassed,
                UpgradeEvent::HandlerReplied,
                UpgradeEvent::TakeoverCompleted,
                UpgradeEvent::StreamFramed,
                UpgradeEvent::CallbackReturned,
            ],
            policy,
        ) == UpgradeState::Closed,
{
    reveal_with_fuel(state_after, 7);
    let events = seq![
        UpgradeEvent::ExaminationStarted,
        UpgradeEvent::ExaminationPassed,
        UpgradeEvent::HandlerReplied,
        UpgradeEvent::TakeoverCompleted,
        UpgradeEvent::StreamFramed,
        UpgradeEvent::CallbackReturned,
    ];
    assert(events.drop_first() =~= seq![
        UpgradeEvent::ExaminationPassed,
        UpgradeEvent::HandlerReplied,
        UpgradeEvent::TakeoverCompleted,
        UpgradeEvent::StreamFramed,
        UpgradeEvent::CallbackReturned,
    ]);
    assert(events.drop_first().drop_first() =~= seq![
        UpgradeEvent::HandlerReplied,
        UpgradeEvent::TakeoverCompleted,
        UpgradeEvent::StreamFramed,
        UpgradeEvent::CallbackReturned,
    ]);
    assert(events.drop_first().drop_first().drop_first() =~= seq![
        UpgradeEvent::TakeoverCompleted,
        UpgradeEvent::StreamFramed,
        UpgradeEvent::CallbackReturned,
    ]);
    assert(events.drop_first().drop_first().drop_first().drop_first() =~= seq![
        UpgradeEvent::StreamFramed,
        UpgradeEvent::CallbackReturned,
    ]);
    assert(events.drop_first().drop_first().drop_first().drop_first().drop_first() =~= seq![
        UpgradeEvent::CallbackReturned,
    ]);
}

} // verus!
