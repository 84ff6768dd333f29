//! What holds of a flow over everything that a host may report.
//!
//! A host may report any events in any order. The statements below hold of
//! every sequence of them.

use crate::address::pairs_read;
use crate::error::ErrorView;
use crate::flow::{
    started_multi, started_single, step, CommandView, EventView, Fault, FlowKind, FlowView,
    OutcomeView, Phase, Surface,
};
use crate::poll::{sighting, SightingView};
use crate::marker::occurs_in;
use crate::poll::TOKEN_PARAMETER;
use crate::token::last_value;
use vstd::prelude::*;

verus! {

/// The state of a flow after the host has reported `events`, in order.
pub open spec fn state_after(flow: FlowView, events: Seq<EventView>) -> FlowView
    decreases events.len(),
{
    if events.len() == 0 {
        flow
    } else {
        step(state_after(flow, events.drop_last()), events.last()).0
    }
}

/// The command that answers the event at position `at` of `events`.
pub open spec fn reply(flow: FlowView, events: Seq<EventView>, at: int) -> CommandView {
    step(state_after(flow, events.take(at)), events[at]).1
}

/// The address `address` carries the token parameter with the value `token`.
pub open spec fn carries(address: Seq<char>, token: Seq<char>) -> bool {
    &&& occurs_in(address, TOKEN_PARAMETER@)
    &&& pairs_read(address) matches Some(pairs)
    &&& last_value(pairs, TOKEN_PARAMETER@) == Some(token)
}

/// One of the first `upto` events is an observation of an address that
/// carries `token`.
pub open spec fn observed_token(events: Seq<EventView>, upto: int, token: Seq<char>) -> bool {
    exists|k: int|
        0 <= k < upto && k < events.len() && (#[trigger] events[k] matches EventView::Observed(
            Some(address),
        ) && carries(address, token))
}

/// The state after one more event is the step from the state before it.
pub proof fn lemma_state_after_next(flow: FlowView, events: Seq<EventView>, at: int)
    requires
        0 <= at < events.len(),
    ensures
        state_after(flow, events.take(at + 1)) == step(
            state_after(flow, events.take(at)),
            events[at],
        ).0,
{
    assert(events.take(at + 1).drop_last() =~= events.take(at));
}

/// A step leads from a state that a flow can be in to another such state.
pub proof fn lemma_step_keeps_wf(flow: FlowView, event: EventView)
    requires
        flow.wf(),
    ensures
        step(flow, event).0.wf(),
{
}

/// Every state that a flow reaches is one that a flow can be in. In
/// particular, once a multi-surface flow has ended, its authorization
/// surface is not open.
pub proof fn lemma_states_are_wf(flow: FlowView, events: Seq<EventView>)
    requires
        flow.wf(),
    ensures
        state_after(flow, events).wf(),
    decreases events.len(),
{
    if events.len() > 0 {
        lemma_states_are_wf(flow, events.drop_last());
        lemma_step_keeps_wf(state_after(flow, events.drop_last()), events.last());
    }
}

/// A flow begins in a state that a flow can be in.
pub proof fn lemma_start_is_wf(
    stall_workaround: bool,
    return_point: Option<Seq<char>>,
    read: Option<Result<Seq<char>, Seq<char>>>,
)
    ensures
        started_multi(stall_workaround, read).0.wf(),
        started_single(return_point, read).0.wf(),
{
}

/// An address to log in at that the parser refuses, with the message `why`,
/// ends the request at once, as invalid for that reason, with no surface
/// opened. In a single-surface flow this is so where the address to come
/// back to could be read.
pub proof fn lemma_malformed_address_ends_request(
    stall_workaround: bool,
    return_point: Seq<char>,
    why: Seq<char>,
)
    ensures
        started_multi(stall_workaround, Some(Err(why))).1 == CommandView::Complete(
            Err(ErrorView::InvalidUrl(why)),
        ),
        started_multi(stall_workaround, Some(Err(why))).0.phase == Phase::Finished,
        started_multi(stall_workaround, Some(Err(why))).0.surface == Surface::Unopened,
        started_single(Some(return_point), Some(Err(why))).1 == CommandView::Complete(
            Err(ErrorView::InvalidUrl(why)),
        ),
        started_single(Some(return_point), Some(Err(why))).0.phase == Phase::Finished,
        started_single(Some(return_point), Some(Err(why))).0.surface == Surface::Unopened,
{
}

/// A single-surface flow whose address to come back to could not be read
/// ends at once, for that reason, with no surface opened, whatever the
/// address to log in at.
pub proof fn lemma_unreadable_return_point_ends_request(
    read: Option<Result<Seq<char>, Seq<char>>>,
)
    ensures
        started_single(None, read).1 == CommandView::Complete(Err(ErrorView::NoInitialUrl)),
        started_single(None, read).0.phase == Phase::Finished,
        started_single(None, read).0.surface == Surface::Unopened,
{
}

/// An address to log in at that is too long to parse has the request given
/// up at once, with no surface opened. In a single-surface flow this is so
/// where the address to come back to could be read.
pub proof fn lemma_overlong_address_ends_request(stall_workaround: bool, return_point: Seq<char>)
    ensures
        started_multi(stall_workaround, None).1 == CommandView::Abandon(Fault::TooLong),
        started_multi(stall_workaround, None).0.phase == Phase::Finished,
        started_multi(stall_workaround, None).0.surface == Surface::Unopened,
        started_single(Some(return_point), None).1 == CommandView::Abandon(Fault::TooLong),
        started_single(Some(return_point), None).0.phase == Phase::Finished,
        started_single(Some(return_point), None).0.surface == Surface::Unopened,
{
}

/// No step asks the host to open the authorization surface: it is opened
/// by the first command of a flow or not at all.
pub proof fn lemma_step_opens_nothing(flow: FlowView, event: EventView)
    ensures
        !(step(flow, event).1 is Open),
{
}

/// A flow that has ended stays as it is and refuses every event.
pub proof fn lemma_finished_is_final(flow: FlowView, events: Seq<EventView>, at: int)
    requires
        flow.phase == Phase::Finished,
        0 <= at < events.len(),
    ensures
        state_after(flow, events) == flow,
        reply(flow, events, at) == CommandView::Refuse,
{
    lemma_finished_stays(flow, events);
    lemma_finished_stays(flow, events.take(at));
}

/// A flow that has ended stays as it is.
pub proof fn lemma_finished_stays(flow: FlowView, events: Seq<EventView>)
    requires
        flow.phase == Phase::Finished,
    ensures
        state_after(flow, events) == flow,
    decreases events.len(),
{
    if events.len() > 0 {
        lemma_finished_stays(flow, events.drop_last());
    }
}

/// When a request ends, in whatever way, the authorization surface has
/// been released. It is left open in one case only: a single-surface flow
/// that brings the token leaves the surface to the application. After a
/// multi-surface flow has brought the token, the surface is closed.
pub proof fn lemma_ending_releases_surface(flow: FlowView, event: EventView)
    requires
        flow.wf(),
        flow.phase != Phase::Finished,
        step(flow, event).0.phase == Phase::Finished,
    ensures
        step(flow, event).1 is Complete || step(flow, event).1 is Abandon,
        step(flow, event).0.surface == Surface::Open ==> flow.kind == FlowKind::SingleSurface
            && step(flow, event).1.brings_token(),
        flow.kind == FlowKind::MultiSurface && step(flow, event).1.brings_token() ==> step(
            flow,
            event,
        ).0.surface == Surface::Closed,
{
}

/// The caller is told of an end, or the request is given up, only as the
/// flow ends: no such command comes from a flow that goes on.
pub proof fn lemma_ending_commands_end_the_flow(flow: FlowView, event: EventView)
    requires
        flow.wf(),
        step(flow, event).1 is Complete || step(flow, event).1 is Abandon,
    ensures
        flow.phase != Phase::Finished,
        step(flow, event).0.phase == Phase::Finished,
{
}

/// While the authorization surface is polled or loaded again, nothing
/// ends the request at once: the surface stays open until the host is
/// asked to close it.
pub proof fn lemma_open_surface_is_closed_before_the_end(flow: FlowView, event: EventView)
    requires
        flow.wf(),
        flow.phase == Phase::Polling || flow.phase == Phase::Refreshing,
    ensures
        step(flow, event).0.phase != Phase::Finished,
        step(flow, event).0.surface == Surface::Open,
        step(flow, event).0.phase == Phase::Closing <==> step(flow, event).1 == CommandView::Close,
{
}

/// A failure of the host after the authorization surface was opened leads
/// to a request to close it, and the failure is told once that is done.
pub proof fn lemma_failure_closes_surface(flow: FlowView, why: Seq<char>)
    requires
        flow.wf(),
        flow.phase == Phase::Refreshing || flow.phase == Phase::HandingBack,
    ensures
        step(flow, EventView::Failed(why)) == (
            flow.closing(OutcomeView::Failed(ErrorView::Platform(why))),
            CommandView::Close,
        ),
        step(flow.closing(OutcomeView::Failed(ErrorView::Platform(why))), EventView::Done)
            == (flow.ended(Surface::Closed), CommandView::Complete(Err(ErrorView::Platform(why)))),
{
}

/// A redirect from which no token can be read leads to a request to close
/// the authorization surface, and the request is given up once that is
/// done, whether the host could close or not.
pub proof fn lemma_unreadable_redirect_closes_surface(
    flow: FlowView,
    address: Seq<char>,
    why: Seq<char>,
)
    requires
        flow.wf(),
        flow.phase == Phase::Polling,
        sighting(flow.armed(), Some(address)) == SightingView::Unreadable,
    ensures
        step(flow, EventView::Observed(Some(address))) == (
            flow.closing(OutcomeView::GivenUp(Fault::TokenUnreadable)),
            CommandView::Close,
        ),
        step(flow.closing(OutcomeView::GivenUp(Fault::TokenUnreadable)), EventView::Done) == (
            flow.ended(Surface::Closed),
            CommandView::Abandon(Fault::TokenUnreadable),
        ),
        step(
            flow.closing(OutcomeView::GivenUp(Fault::TokenUnreadable)),
            EventView::Failed(why),
        ) == (flow.ended(Surface::Stuck), CommandView::Abandon(Fault::TokenUnreadable)),
{
}

/// An event that is refused changes nothing.
pub proof fn lemma_refusal_changes_nothing(flow: FlowView, event: EventView)
    requires
        step(flow, event).1 is Refuse,
    ensures
        step(flow, event).0 == flow,
{
}

/// Once a stalled page has been loaded again, that stays on record.
pub proof fn lemma_refreshed_stays(flow: FlowView, events: Seq<EventView>, from: int, to: int)
    requires
        0 <= from <= to <= events.len(),
        state_after(flow, events.take(from)).refreshed,
    ensures
        state_after(flow, events.take(to)).refreshed,
    decreases to - from,
{
    if from < to {
        lemma_refreshed_stays(flow, events, from, to - 1);
        lemma_state_after_next(flow, events, to - 1);
    }
}

/// A stalled page is loaded again at most once in a request, however often
/// the host observes one.
pub proof fn lemma_stall_workaround_fires_once(
    flow: FlowView,
    events: Seq<EventView>,
    first: int,
    second: int,
)
    requires
        0 <= first < second < events.len(),
        reply(flow, events, first) is Renavigate,
    ensures
        !(reply(flow, events, second) is Renavigate),
{
    lemma_state_after_next(flow, events, first);
    lemma_refreshed_stays(flow, events, first + 1, second);
}

/// A stalled page is never loaded again where the flow was begun without
/// the workaround.
pub proof fn lemma_stall_workaround_can_be_off(flow: FlowView, events: Seq<EventView>, at: int)
    requires
        !flow.stall_workaround,
        0 <= at < events.len(),
    ensures
        !(reply(flow, events, at) is Renavigate),
{
    lemma_workaround_setting_stays(flow, events.take(at));
}

/// Whether the workaround is on never changes.
pub proof fn lemma_workaround_setting_stays(flow: FlowView, events: Seq<EventView>)
    ensures
        state_after(flow, events).stall_workaround == flow.stall_workaround,
        state_after(flow, events).kind == flow.kind,
        state_after(flow, events).return_point == flow.return_point,
    decreases events.len(),
{
    if events.len() > 0 {
        lemma_workaround_setting_stays(flow, events.drop_last());
    }
}

/// An observation without the name of the token parameter leaves a polling
/// flow polling: the host is told to look again, or to load a stalled page
/// again first, and nothing is pending.
pub proof fn lemma_no_marker_keeps_polling(flow: FlowView, observed: Option<Seq<char>>)
    requires
        flow.wf(),
        flow.phase == Phase::Polling,
        observed matches Some(address) ==> !occurs_in(address, TOKEN_PARAMETER@),
    ensures
        step(flow, EventView::Observed(observed)).1 is WaitAndObserve || step(
            flow,
            EventView::Observed(observed),
        ).1 is Renavigate,
        step(flow, EventView::Observed(observed)).0.pending is None,
        step(flow, EventView::Observed(observed)).0.surface == Surface::Open,
        observed is None ==> step(flow, EventView::Observed(observed)).0 == flow,
{
}

/// While a token is pending, an observation that carries it lies behind.
proof fn lemma_pending_token_was_observed(flow: FlowView, events: Seq<EventView>, upto: int)
    requires
        flow.wf(),
        !(flow.pending matches Some(OutcomeView::Token(_))),
        0 <= upto <= events.len(),
    ensures
        state_after(flow, events.take(upto)).pending matches Some(OutcomeView::Token(token))
            ==> observed_token(
            events,
            upto,
            token,
        ),
    decreases upto,
{
    if upto == 0 {
        assert(events.take(0).len() == 0);
    } else {
        let before = state_after(flow, events.take(upto - 1));
        let event = events[upto - 1];
        lemma_pending_token_was_observed(flow, events, upto - 1);
        lemma_state_after_next(flow, events, upto - 1);
        lemma_states_are_wf(flow, events.take(upto - 1));
        match (step(before, event).0.pending, before.pending) {
            (Some(OutcomeView::Token(token)), Some(OutcomeView::Token(earlier))) => {
                assert(earlier == token);
                let k = choose|k: int|
                    0 <= k < upto - 1 && k < events.len() && (
                    #[trigger] events[k] matches EventView::Observed(Some(address)) && carries(
                        address,
                        token,
                    ));
                assert(0 <= k < upto);
            },
            (Some(OutcomeView::Token(token)), _) => {
                assert(before.phase == Phase::Polling);
                assert(event matches EventView::Observed(Some(address)) && carries(
                    address,
                    token,
                ));
                assert(events[upto - 1] == event);
            },
            _ => {},
        }
    }
}

/// No token reaches the caller unless the host observed an address that
/// holds the name of the token parameter, and the token is the value that
/// the address gives that parameter.
pub proof fn lemma_token_was_observed(
    flow: FlowView,
    events: Seq<EventView>,
    at: int,
    token: Seq<char>,
)
    requires
        flow.wf(),
        flow.pending is None,
        0 <= at < events.len(),
        reply(flow, events, at) == CommandView::Complete(Ok(token)),
    ensures
        observed_token(events, at, token),
{
    lemma_pending_token_was_observed(flow, events, at);
    lemma_states_are_wf(flow, events.take(at));
}

} // verus!
