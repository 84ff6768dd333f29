//! One authorization request, from the first address to the token.
//!
//! The flow never touches a surface itself. It hands the host a [`Command`],
//! the host carries it out and reports an [`Event`], and the flow answers
//! with the next command, until the command is [`Command::Complete`]. All
//! that the flow decides is a function of its state and the event.
//!
//! There are two kinds of flow. Where a window may hold several surfaces,
//! the login runs in a surface of its own, which is closed once the token is
//! there. Where a window holds one surface only, the address of that surface
//! is recorded first, and the token is handed back by sending the
//! application's surface to that address with the token in its query.

use crate::address::{address_read, answer_view, appendable, read_address};
use crate::error::{AuthorizationError, ErrorView};
use crate::handback::{
    check, hand_back_address, hand_back_script, result_view, script_text, try_hand_back_url,
};
use crate::poll::{inspect, sighting, Sighting, SightingView, TOKEN_PARAMETER};
use vstd::prelude::*;

verus! {

/// How many surfaces the host's window may hold.
#[derive(Clone, Copy, Debug, PartialEq, Eq)]
pub enum FlowKind {
    /// One: the caller's own surface is the place to come back to.
    SingleSurface,
    /// Several: the login gets a surface of its own.
    MultiSurface,
}

/// What the flow is waiting for.
#[derive(Clone, Copy, Debug, PartialEq, Eq)]
pub enum Phase {
    /// For the host to open the authorization surface.
    Opening,
    /// For the next observation of the authorization surface.
    Polling,
    /// For the host to load a stalled page again.
    Refreshing,
    /// For the host to send the application's surface to the hand-back
    /// address.
    HandingBack,
    /// For the host to close the authorization surface.
    Closing,
    /// For nothing: the request has ended.
    Finished,
}

/// What the flow knows of the authorization surface.
#[derive(Clone, Copy, Debug, PartialEq, Eq)]
pub enum Surface {
    /// The host has not opened it.
    Unopened,
    /// The host has opened it and has not closed it.
    Open,
    /// The host has closed it.
    Closed,
    /// The host was asked to close it and could not.
    Stuck,
}

/// What the host reports.
#[derive(Debug, PartialEq, Eq)]
pub enum Event {
    /// The command was carried out.
    Done,
    /// The command could not be carried out, for this reason.
    Failed(String),
    /// The address of the authorization surface, or `None` where it cannot
    /// be read just now.
    Observed(Option<String>),
}

/// An [`Event`] with its texts as sequences of characters.
pub enum EventView {
    Done,
    Failed(Seq<char>),
    Observed(Option<Seq<char>>),
}

impl View for Event {
    type V = EventView;

    open spec fn view(&self) -> EventView {
        match self {
            Event::Done => EventView::Done,
            Event::Failed(why) => EventView::Failed(why@),
            Event::Observed(Some(address)) => EventView::Observed(Some(address@)),
            Event::Observed(None) => EventView::Observed(None),
        }
    }
}

/// Why a request is given up without a result.
#[derive(Clone, Copy, Debug, PartialEq, Eq)]
pub enum Fault {
    /// The observed address holds the name of the token parameter, but no
    /// parameter of that name can be read from it.
    TokenUnreadable,
    /// The address to log in at is too long to parse, or the hand-back
    /// address would be too long to write.
    TooLong,
}

/// What the host is to do next.
#[derive(Debug, PartialEq, Eq)]
pub enum Command {
    /// Open the authorization surface at this address, then report
    /// [`Event::Done`] or [`Event::Failed`].
    Open(String),
    /// Report the address of the authorization surface at once.
    Observe,
    /// Wait for the next tick of the polling interval, then report the
    /// address of the authorization surface.
    WaitAndObserve,
    /// Wait for the stall delay, send the authorization surface to this
    /// address again, then report [`Event::Done`] or [`Event::Failed`].
    Renavigate(String),
    /// Bring up the application's surface and run `script` in it, which
    /// sends it to `address`; then report [`Event::Done`] or
    /// [`Event::Failed`].
    HandBack { address: String, script: String },
    /// Close the authorization surface, then report [`Event::Done`] or
    /// [`Event::Failed`].
    Close,
    /// Tell the caller how the request ended. Nothing follows.
    Complete(Result<String, AuthorizationError>),
    /// Give the request up: what the provider sent breaks what was agreed
    /// with it, and there is no result to tell. Nothing follows.
    Abandon(Fault),
    /// Nothing: the event answers no command that is outstanding. It was
    /// not taken, and the flow is as it was.
    Refuse,
}

/// A [`Command`] with its texts as sequences of characters.
pub enum CommandView {
    Open(Seq<char>),
    Observe,
    WaitAndObserve,
    Renavigate(Seq<char>),
    HandBack { address: Seq<char>, script: Seq<char> },
    Close,
    Complete(Result<Seq<char>, ErrorView>),
    Abandon(Fault),
    Refuse,
}

impl CommandView {
    /// The command tells the caller the token.
    pub open spec fn brings_token(self) -> bool {
        self matches CommandView::Complete(Ok(_))
    }
}

impl View for Command {
    type V = CommandView;

    open spec fn view(&self) -> CommandView {
        match self {
            Command::Open(address) => CommandView::Open(address@),
            Command::Observe => CommandView::Observe,
            Command::WaitAndObserve => CommandView::WaitAndObserve,
            Command::Renavigate(address) => CommandView::Renavigate(address@),
            Command::HandBack { address, script } => CommandView::HandBack {
                address: address@,
                script: script@,
            },
            Command::Close => CommandView::Close,
            Command::Complete(result) => CommandView::Complete(result_view(*result)),
            Command::Abandon(fault) => CommandView::Abandon(*fault),
            Command::Refuse => CommandView::Refuse,
        }
    }
}

/// How a request is to end once the host has done what it was asked.
enum Outcome {
    /// With the token.
    Token(String),
    /// With a failure.
    Failed(AuthorizationError),
    /// Without a result.
    GivenUp(Fault),
}

/// How a request is to end once the host has done what it was asked.
pub enum OutcomeView {
    /// With the token.
    Token(Seq<char>),
    /// With a failure.
    Failed(ErrorView),
    /// Without a result.
    GivenUp(Fault),
}

impl View for Outcome {
    type V = OutcomeView;

    closed spec fn view(&self) -> OutcomeView {
        match self {
            Outcome::Token(token) => OutcomeView::Token(token@),
            Outcome::Failed(error) => OutcomeView::Failed(error@),
            Outcome::GivenUp(fault) => OutcomeView::GivenUp(*fault),
        }
    }
}

impl OutcomeView {
    /// The command that ends a request in this way.
    pub open spec fn ending(self) -> CommandView {
        match self {
            OutcomeView::Token(token) => CommandView::Complete(Ok(token)),
            OutcomeView::Failed(error) => CommandView::Complete(Err(error)),
            OutcomeView::GivenUp(fault) => CommandView::Abandon(fault),
        }
    }

    /// The command that ends a request whose authorization surface could
    /// not be closed, for the reason `why`: the token is held back, and
    /// the failure to close is told in its place. What led to the closing
    /// otherwise is told as it is.
    pub open spec fn ending_unclosed(self, why: Seq<char>) -> CommandView {
        match self {
            OutcomeView::Token(_) => CommandView::Complete(Err(ErrorView::Platform(why))),
            _ => self.ending(),
        }
    }
}

/// The state of a flow.
pub struct FlowView {
    /// The kind of the flow.
    pub kind: FlowKind,
    /// Whether a stalled sign-in page is to be loaded again, once.
    pub stall_workaround: bool,
    /// What the flow is waiting for.
    pub phase: Phase,
    /// What the flow knows of the authorization surface.
    pub surface: Surface,
    /// Whether a stalled page has been loaded again.
    pub refreshed: bool,
    /// The address to come back to; empty in a multi-surface flow.
    pub return_point: Seq<char>,
    /// How the request will end once the host has done what it was asked.
    pub pending: Option<OutcomeView>,
}

impl FlowView {
    /// Whether a stalled page is still to be looked for.
    pub open spec fn armed(self) -> bool {
        self.stall_workaround && !self.refreshed
    }

    /// The states that a flow can be in.
    pub open spec fn wf(self) -> bool {
        &&& self.kind == FlowKind::SingleSurface ==> !self.stall_workaround
        &&& self.refreshed ==> self.stall_workaround
        &&& match self.phase {
            Phase::Opening => self.surface == Surface::Unopened && self.pending is None,
            Phase::Polling => self.surface == Surface::Open && self.pending is None,
            Phase::Refreshing => {
                &&& self.surface == Surface::Open
                &&& self.pending is None
                &&& self.refreshed
            },
            Phase::HandingBack => {
                &&& self.surface == Surface::Open
                &&& self.kind == FlowKind::SingleSurface
                &&& self.pending matches Some(OutcomeView::Token(_))
            },
            Phase::Closing => self.surface == Surface::Open && self.pending is Some,
            Phase::Finished => {
                &&& self.pending is None
                &&& self.kind == FlowKind::MultiSurface ==> self.surface != Surface::Open
            },
        }
    }

    /// The same flow, ended.
    pub open spec fn ended(self, surface: Surface) -> FlowView {
        FlowView { phase: Phase::Finished, surface, pending: None, ..self }
    }

    /// The same flow, about to close the authorization surface and then to
    /// end as `outcome` says.
    pub open spec fn closing(self, outcome: OutcomeView) -> FlowView {
        FlowView { phase: Phase::Closing, pending: Some(outcome), ..self }
    }
}

/// A flow that waits for its authorization surface to be opened.
pub open spec fn fresh(kind: FlowKind, stall_workaround: bool, return_point: Seq<char>) -> FlowView {
    FlowView {
        kind,
        stall_workaround,
        phase: Phase::Opening,
        surface: Surface::Unopened,
        refreshed: false,
        return_point,
        pending: None,
    }
}

/// The first step of a flow, given what was made of the address to log in
/// at (`None` where it is too long to parse): the surface is opened at the
/// address, or the request ends at once.
pub open spec fn started(flow: FlowView, read: Option<Result<Seq<char>, Seq<char>>>) -> (
    FlowView,
    CommandView,
) {
    match read {
        Some(Ok(address)) => (flow, CommandView::Open(address)),
        Some(Err(why)) => (
            flow.ended(Surface::Unopened),
            CommandView::Complete(Err(ErrorView::InvalidUrl(why))),
        ),
        None => (flow.ended(Surface::Unopened), CommandView::Abandon(Fault::TooLong)),
    }
}

/// The first step of a single-surface flow. The address to come back to is
/// looked at first: without it the request ends whatever the other address
/// is.
pub open spec fn started_single(
    return_point: Option<Seq<char>>,
    read: Option<Result<Seq<char>, Seq<char>>>,
) -> (FlowView, CommandView) {
    match return_point {
        Some(address) => started(fresh(FlowKind::SingleSurface, false, address), read),
        None => (
            fresh(FlowKind::SingleSurface, false, Seq::empty()).ended(Surface::Unopened),
            CommandView::Complete(Err(ErrorView::NoInitialUrl)),
        ),
    }
}

/// The first step of a multi-surface flow.
pub open spec fn started_multi(
    stall_workaround: bool,
    read: Option<Result<Seq<char>, Seq<char>>>,
) -> (FlowView, CommandView) {
    started(fresh(FlowKind::MultiSurface, stall_workaround, Seq::empty()), read)
}

/// The event is not taken.
pub open spec fn refused(flow: FlowView) -> (FlowView, CommandView) {
    (flow, CommandView::Refuse)
}

/// The step of a polling single-surface flow that has the token and the
/// hand-back address built from it.
pub open spec fn handed_back(
    flow: FlowView,
    token: Seq<char>,
    built: Result<Seq<char>, ErrorView>,
) -> (FlowView, CommandView) {
    if flow.phase != Phase::Polling || flow.kind != FlowKind::SingleSurface {
        refused(flow)
    } else {
        match built {
            Ok(address) => (
                FlowView {
                    phase: Phase::HandingBack,
                    pending: Some(OutcomeView::Token(token)),
                    ..flow
                },
                CommandView::HandBack { address, script: script_text(address) },
            ),
            Err(error) => (flow.closing(OutcomeView::Failed(error)), CommandView::Close),
        }
    }
}

/// The step of a polling flow on an observed address, given what the
/// address means.
pub open spec fn settled(flow: FlowView, address: Seq<char>, seen: SightingView) -> (
    FlowView,
    CommandView,
) {
    if flow.phase != Phase::Polling {
        refused(flow)
    } else {
        match seen {
            SightingView::Nothing => (flow, CommandView::WaitAndObserve),
            SightingView::Stalled => if flow.armed() {
                (
                    FlowView { phase: Phase::Refreshing, refreshed: true, ..flow },
                    CommandView::Renavigate(address),
                )
            } else {
                refused(flow)
            },
            SightingView::Unreadable => (
                flow.closing(OutcomeView::GivenUp(Fault::TokenUnreadable)),
                CommandView::Close,
            ),
            SightingView::Token(token) => match flow.kind {
                FlowKind::MultiSurface => (
                    flow.closing(OutcomeView::Token(token)),
                    CommandView::Close,
                ),
                FlowKind::SingleSurface => if appendable(
                    flow.return_point,
                    TOKEN_PARAMETER@,
                    token,
                ) {
                    handed_back(flow, token, hand_back_address(flow.return_point, token))
                } else {
                    (flow.closing(OutcomeView::GivenUp(Fault::TooLong)), CommandView::Close)
                },
            },
        }
    }
}

/// The step of a flow on an event: the state after it and the command that
/// answers it.
pub open spec fn step(flow: FlowView, event: EventView) -> (FlowView, CommandView) {
    match (flow.phase, event) {
        (Phase::Opening, EventView::Done) => (
            FlowView { phase: Phase::Polling, surface: Surface::Open, ..flow },
            CommandView::Observe,
        ),
        (Phase::Opening, EventView::Failed(why)) => (
            flow.ended(Surface::Unopened),
            CommandView::Complete(Err(ErrorView::Platform(why))),
        ),
        (Phase::Polling, EventView::Observed(None)) => (flow, CommandView::WaitAndObserve),
        (Phase::Polling, EventView::Observed(Some(address))) => settled(
            flow,
            address,
            sighting(flow.armed(), Some(address)),
        ),
        (Phase::Refreshing, EventView::Done) => (
            FlowView { phase: Phase::Polling, ..flow },
            CommandView::Observe,
        ),
        (Phase::Refreshing, EventView::Failed(why)) => (
            flow.closing(OutcomeView::Failed(ErrorView::Platform(why))),
            CommandView::Close,
        ),
        (Phase::HandingBack, EventView::Done) => (
            flow.ended(Surface::Open),
            flow.pending->0.ending(),
        ),
        (Phase::HandingBack, EventView::Failed(why)) => (
            flow.closing(OutcomeView::Failed(ErrorView::Platform(why))),
            CommandView::Close,
        ),
        (Phase::Closing, EventView::Done) => (
            flow.ended(Surface::Closed),
            flow.pending->0.ending(),
        ),
        (Phase::Closing, EventView::Failed(why)) => (
            flow.ended(Surface::Stuck),
            flow.pending->0.ending_unclosed(why),
        ),
        _ => refused(flow),
    }
}

/// An address that may be missing, by its characters.
pub open spec fn address_view(address: Option<String>) -> Option<Seq<char>> {
    match address {
        Some(text) => Some(text@),
        None => None,
    }
}

/// One authorization request.
pub struct AuthorizationFlow {
    kind: FlowKind,
    stall_workaround: bool,
    phase: Phase,
    surface: Surface,
    refreshed: bool,
    return_point: String,
    pending: Option<Outcome>,
}

impl View for AuthorizationFlow {
    type V = FlowView;

    closed spec fn view(&self) -> FlowView {
        FlowView {
            kind: self.kind,
            stall_workaround: self.stall_workaround,
            phase: self.phase,
            surface: self.surface,
            refreshed: self.refreshed,
            return_point: self.return_point@,
            pending: match self.pending {
                Some(outcome) => Some(outcome@),
                None => None,
            },
        }
    }
}

impl AuthorizationFlow {
    #[verifier::type_invariant]
    spec fn inv(self) -> bool {
        self@.wf()
    }

    /// Begins a single-surface flow, given what was made of the address to
    /// log in at: the parser's answer, or `None` where the address is too
    /// long to parse.
    ///
    /// `return_point` is the address of the caller's surface, read before
    /// anything is opened, or `None` where it could not be read.
    pub fn single_surface_from(
        return_point: Option<String>,
        read: Option<Result<String, String>>,
    ) -> (begun: (Self, Command))
        ensures
            (begun.0@, begun.1@) == started_single(address_view(return_point), answer_view(read)),
            begun.0@.wf(),
    {
        match return_point {
            Some(address) => Self::start(FlowKind::SingleSurface, false, address, read),
            None => {
                let flow = AuthorizationFlow {
                    kind: FlowKind::SingleSurface,
                    stall_workaround: false,
                    phase: Phase::Finished,
                    surface: Surface::Unopened,
                    refreshed: false,
                    return_point: String::new(),
                    pending: None,
                };
                (flow, Command::Complete(Err(AuthorizationError::NoInitialUrl)))
            },
        }
    }

    /// Begins a multi-surface flow, given what was made of the address to
    /// log in at: the parser's answer, or `None` where the address is too
    /// long to parse.
    ///
    /// `stall_workaround` says whether a stalled sign-in page is to be
    /// loaded again, once.
    pub fn multi_surface_from(
        stall_workaround: bool,
        read: Option<Result<String, String>>,
    ) -> (begun: (Self, Command))
        ensures
            (begun.0@, begun.1@) == started_multi(stall_workaround, answer_view(read)),
            begun.0@.wf(),
    {
        Self::start(FlowKind::MultiSurface, stall_workaround, String::new(), read)
    }

    /// Begins a single-surface flow that logs in at `oauth_url`.
    ///
    /// `return_point` is the address of the caller's surface, read before
    /// anything is opened, or `None` where it could not be read.
    pub fn begin_single_surface(
        return_point: Option<String>,
        oauth_url: &str,
    ) -> (begun: (Self, Command))
        ensures
            (begun.0@, begun.1@) == started_single(
                address_view(return_point),
                address_read(oauth_url@),
            ),
            begun.0@.wf(),
    {
        Self::single_surface_from(return_point, read_address(oauth_url))
    }

    /// Begins a multi-surface flow that logs in at `oauth_url`.
    ///
    /// `stall_workaround` says whether a stalled sign-in page is to be
    /// loaded again, once.
    pub fn begin_multi_surface(oauth_url: &str, stall_workaround: bool) -> (begun: (Self, Command))
        ensures
            (begun.0@, begun.1@) == started_multi(stall_workaround, address_read(oauth_url@)),
            begun.0@.wf(),
    {
        Self::multi_surface_from(stall_workaround, read_address(oauth_url))
    }

    fn start(
        kind: FlowKind,
        stall_workaround: bool,
        return_point: String,
        read: Option<Result<String, String>>,
    ) -> (begun: (Self, Command))
        requires
            kind == FlowKind::SingleSurface ==> !stall_workaround,
        ensures
            (begun.0@, begun.1@) == started(
                fresh(kind, stall_workaround, return_point@),
                answer_view(read),
            ),
            begun.0@.wf(),
    {
        let parsed = match read {
            Some(parsed) => parsed,
            None => {
                let flow = AuthorizationFlow {
                    kind,
                    stall_workaround,
                    phase: Phase::Finished,
                    surface: Surface::Unopened,
                    refreshed: false,
                    return_point,
                    pending: None,
                };
                return (flow, Command::Abandon(Fault::TooLong));
            },
        };
        match check(parsed) {
            Ok(address) => {
                let flow = AuthorizationFlow {
                    kind,
                    stall_workaround,
                    phase: Phase::Opening,
                    surface: Surface::Unopened,
                    refreshed: false,
                    return_point,
                    pending: None,
                };
                (flow, Command::Open(address))
            },
            Err(error) => {
                let flow = AuthorizationFlow {
                    kind,
                    stall_workaround,
                    phase: Phase::Finished,
                    surface: Surface::Unopened,
                    refreshed: false,
                    return_point,
                    pending: None,
                };
                (flow, Command::Complete(Err(error)))
            },
        }
    }

    /// The kind of the flow.
    pub fn kind(&self) -> (kind: FlowKind)
        ensures
            kind == self@.kind,
    {
        self.kind
    }

    /// What the flow is waiting for.
    pub fn phase(&self) -> (phase: Phase)
        ensures
            phase == self@.phase,
    {
        self.phase
    }

    /// What the flow knows of the authorization surface.
    pub fn surface(&self) -> (surface: Surface)
        ensures
            surface == self@.surface,
    {
        self.surface
    }

    /// Whether a stalled page has been loaded again.
    pub fn has_refreshed(&self) -> (refreshed: bool)
        ensures
            refreshed == self@.refreshed,
    {
        self.refreshed
    }

    /// Whether a stalled page is still to be looked for.
    pub fn is_armed(&self) -> (armed: bool)
        ensures
            armed == self@.armed(),
    {
        self.stall_workaround && !self.refreshed
    }

    /// Whether the request has ended.
    pub fn is_finished(&self) -> (finished: bool)
        ensures
            finished == (self@.phase == Phase::Finished),
    {
        match self.phase {
            Phase::Finished => true,
            _ => false,
        }
    }

    /// Takes the host's report and says what the host is to do next.
    pub fn advance(self, event: Event) -> (next: (Self, Command))
        ensures
            (next.0@, next.1@) == step(self@, event@),
            next.0@.wf(),
    {
        proof {
            use_type_invariant(&self);
        }
        match (self.phase, event) {
            (Phase::Opening, Event::Done) => (
                AuthorizationFlow { phase: Phase::Polling, surface: Surface::Open, ..self },
                Command::Observe,
            ),
            (Phase::Opening, Event::Failed(why)) => (
                AuthorizationFlow { phase: Phase::Finished, ..self },
                Command::Complete(Err(AuthorizationError::Platform(why))),
            ),
            (Phase::Polling, Event::Observed(None)) => (self, Command::WaitAndObserve),
            (Phase::Polling, Event::Observed(Some(address))) => {
                let seen = inspect(self.is_armed(), Some(address.as_str()));
                self.settle(address, seen)
            },
            (Phase::Refreshing, Event::Done) => (
                AuthorizationFlow { phase: Phase::Polling, ..self },
                Command::Observe,
            ),
            (Phase::Refreshing, Event::Failed(why)) => (
                self.close_with(Outcome::Failed(AuthorizationError::Platform(why))),
                Command::Close,
            ),
            (Phase::HandingBack, Event::Done) => self.end(Surface::Open, None),
            (Phase::HandingBack, Event::Failed(why)) => (
                self.close_with(Outcome::Failed(AuthorizationError::Platform(why))),
                Command::Close,
            ),
            (Phase::Closing, Event::Done) => self.end(Surface::Closed, None),
            (Phase::Closing, Event::Failed(why)) => self.end(Surface::Stuck, Some(why)),
            _ => (self, Command::Refuse),
        }
    }

    /// Takes an observed address together with what it means, and says
    /// what the host is to do next.
    ///
    /// [`AuthorizationFlow::advance`] judges the address itself and then
    /// does this.
    pub fn settle(self, address: String, seen: Sighting) -> (next: (Self, Command))
        ensures
            (next.0@, next.1@) == settled(self@, address@, seen@),
            next.0@.wf(),
    {
        proof {
            use_type_invariant(&self);
        }
        match self.phase {
            Phase::Polling => {},
            _ => {
                return (self, Command::Refuse);
            },
        }
        match seen {
            Sighting::Nothing => (self, Command::WaitAndObserve),
            Sighting::Stalled => {
                if self.is_armed() {
                    (
                        AuthorizationFlow { phase: Phase::Refreshing, refreshed: true, ..self },
                        Command::Renavigate(address),
                    )
                } else {
                    (self, Command::Refuse)
                }
            },
            Sighting::Unreadable => (
                self.close_with(Outcome::GivenUp(Fault::TokenUnreadable)),
                Command::Close,
            ),
            Sighting::Token(token) => match self.kind {
                FlowKind::MultiSurface => (self.close_with(Outcome::Token(token)), Command::Close),
                FlowKind::SingleSurface => {
                    match try_hand_back_url(self.return_point.as_str(), token.as_str()) {
                        Some(built) => self.hand_back(token, built),
                        None => (self.close_with(Outcome::GivenUp(Fault::TooLong)), Command::Close),
                    }
                },
            },
        }
    }

    /// Takes the token and the hand-back address built from it, and says
    /// what the host is to do next.
    ///
    /// [`AuthorizationFlow::settle`] builds the address and then does this.
    pub fn hand_back(
        self,
        token: String,
        built: Result<String, AuthorizationError>,
    ) -> (next: (Self, Command))
        ensures
            (next.0@, next.1@) == handed_back(self@, token@, result_view(built)),
            next.0@.wf(),
    {
        proof {
            use_type_invariant(&self);
        }
        match (self.phase, self.kind) {
            (Phase::Polling, FlowKind::SingleSurface) => {},
            _ => {
                return (self, Command::Refuse);
            },
        }
        match built {
            Ok(address) => {
                let script = hand_back_script(address.as_str());
                (
                    AuthorizationFlow {
                        phase: Phase::HandingBack,
                        pending: Some(Outcome::Token(token)),
                        ..self
                    },
                    Command::HandBack { address, script },
                )
            },
            Err(error) => (self.close_with(Outcome::Failed(error)), Command::Close),
        }
    }

    /// The same flow, about to close the authorization surface and then to
    /// end as `outcome` says.
    fn close_with(self, outcome: Outcome) -> (next: Self)
        requires
            self@.surface == Surface::Open,
        ensures
            next@ == self@.closing(outcome@),
            next@.wf(),
    {
        proof {
            use_type_invariant(&self);
        }
        AuthorizationFlow { phase: Phase::Closing, pending: Some(outcome), ..self }
    }

    /// Ends a flow that waits for the host to hand back or to close, as
    /// what is pending says; `close_failure` is the host's reason where it
    /// could not close.
    fn end(self, surface: Surface, close_failure: Option<String>) -> (next: (Self, Command))
        requires
            self@.pending is Some,
            self@.kind == FlowKind::MultiSurface ==> surface != Surface::Open,
        ensures
            next.0@ == self@.ended(surface),
            next.0@.wf(),
            close_failure is None ==> next.1@ == self@.pending->0.ending(),
            close_failure matches Some(why) ==> next.1@ == self@.pending->0.ending_unclosed(why@),
    {
        proof {
            use_type_invariant(&self);
        }
        let AuthorizationFlow {
            kind,
            stall_workaround,
            phase: _,
            surface: _,
            refreshed,
            return_point,
            pending,
        } = self;
        let command = match (pending.unwrap(), close_failure) {
            (Outcome::Token(_), Some(why)) => Command::Complete(
                Err(AuthorizationError::Platform(why)),
            ),
            (Outcome::Token(token), None) => Command::Complete(Ok(token)),
            (Outcome::Failed(error), _) => Command::Complete(Err(error)),
            (Outcome::GivenUp(fault), _) => Command::Abandon(fault),
        };
        (
            AuthorizationFlow {
                kind,
                stall_workaround,
                phase: Phase::Finished,
                surface,
                refreshed,
                return_point,
                pending: None,
            },
            command,
        )
    }
}

} // verus!
