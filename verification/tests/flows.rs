use music_auth::error::AuthorizationError;
use music_auth::flow::{AuthorizationFlow, Command, Event, Fault, FlowKind, Phase, Surface};
use music_auth::poll::Sighting;

const LOGIN: &str = "https://provider/auth";
const CALLBACK: &str = "https://provider/callback?musicUserToken=ABC123";
const SIGN_IN: &str = "https://idmsa.provider.example/signin";

fn observed(address: &str) -> Event {
    Event::Observed(Some(address.to_string()))
}

fn failed(why: &str) -> Event {
    Event::Failed(why.to_string())
}

fn polling_multi(stall_workaround: bool) -> AuthorizationFlow {
    let (flow, command) = AuthorizationFlow::begin_multi_surface(LOGIN, stall_workaround);
    assert_eq!(command, Command::Open(LOGIN.to_string()));
    let (flow, command) = flow.advance(Event::Done);
    assert_eq!(command, Command::Observe);
    flow
}

fn polling_single(return_point: &str) -> AuthorizationFlow {
    let (flow, command) =
        AuthorizationFlow::begin_single_surface(Some(return_point.to_string()), LOGIN);
    assert_eq!(command, Command::Open(LOGIN.to_string()));
    let (flow, command) = flow.advance(Event::Done);
    assert_eq!(command, Command::Observe);
    flow
}

#[test]
fn multi_surface_flow_brings_the_token_and_closes() {
    let (flow, command) = AuthorizationFlow::begin_multi_surface(LOGIN, false);
    assert_eq!(command, Command::Open(LOGIN.to_string()));
    assert_eq!(flow.kind(), FlowKind::MultiSurface);
    assert_eq!(flow.phase(), Phase::Opening);
    assert_eq!(flow.surface(), Surface::Unopened);

    let (flow, command) = flow.advance(Event::Done);
    assert_eq!(command, Command::Observe);
    assert_eq!(flow.phase(), Phase::Polling);
    assert_eq!(flow.surface(), Surface::Open);

    let (flow, command) = flow.advance(observed("about:blank"));
    assert_eq!(command, Command::WaitAndObserve);
    let (flow, command) = flow.advance(observed("about:blank"));
    assert_eq!(command, Command::WaitAndObserve);
    let (flow, command) = flow.advance(observed("https://provider/auth?step=1"));
    assert_eq!(command, Command::WaitAndObserve);
    assert_eq!(flow.phase(), Phase::Polling);

    let (flow, command) = flow.advance(observed(CALLBACK));
    assert_eq!(command, Command::Close);
    assert_eq!(flow.phase(), Phase::Closing);
    assert_eq!(flow.surface(), Surface::Open);

    let (flow, command) = flow.advance(Event::Done);
    assert_eq!(command, Command::Complete(Ok("ABC123".to_string())));
    assert!(flow.is_finished());
    assert_eq!(flow.surface(), Surface::Closed);
}

#[test]
fn address_to_log_in_at_is_opened_as_the_parser_writes_it() {
    let (_, command) = AuthorizationFlow::begin_multi_surface("HTTPS://Example.NET", false);
    assert_eq!(command, Command::Open("https://example.net/".to_string()));
    let (_, command) = AuthorizationFlow::begin_single_surface(
        Some("tauri://localhost".to_string()),
        " https://example.net/a b",
    );
    assert_eq!(command, Command::Open("https://example.net/a%20b".to_string()));
}

#[test]
fn malformed_address_ends_a_multi_surface_flow_unopened() {
    for input in ["not a url", "", "//provider/auth", "https://"] {
        let (flow, command) = AuthorizationFlow::begin_multi_surface(input, true);
        assert!(matches!(command, Command::Complete(Err(AuthorizationError::InvalidUrl(_)))));
        assert!(flow.is_finished());
        assert_eq!(flow.surface(), Surface::Unopened);
        let (flow, command) = flow.advance(Event::Done);
        assert_eq!(command, Command::Refuse);
        assert_eq!(flow.surface(), Surface::Unopened);
    }
}

#[test]
fn malformed_address_carries_the_parser_message() {
    let (_, command) = AuthorizationFlow::begin_multi_surface("not a url", false);
    assert_eq!(
        command,
        Command::Complete(Err(AuthorizationError::InvalidUrl(
            "relative URL without a base".to_string()
        )))
    );
    let (_, command) = AuthorizationFlow::begin_multi_surface("https://exa mple.net/", false);
    assert_eq!(
        command,
        Command::Complete(Err(AuthorizationError::InvalidUrl(
            "invalid international domain name".to_string()
        )))
    );
    let (_, command) = AuthorizationFlow::begin_multi_surface("https://a:99999/", false);
    assert_eq!(
        command,
        Command::Complete(Err(AuthorizationError::InvalidUrl("invalid port number".to_string())))
    );
}

#[test]
fn malformed_address_ends_a_single_surface_flow_unopened() {
    let (flow, command) = AuthorizationFlow::begin_single_surface(
        Some("https://app.local/home".to_string()),
        "not a url",
    );
    assert_eq!(
        command,
        Command::Complete(Err(AuthorizationError::InvalidUrl(
            "relative URL without a base".to_string()
        )))
    );
    assert!(flow.is_finished());
    assert_eq!(flow.kind(), FlowKind::SingleSurface);
    assert_eq!(flow.surface(), Surface::Unopened);
}

#[test]
fn unreadable_return_point_ends_a_single_surface_flow_unopened() {
    let (flow, command) = AuthorizationFlow::begin_single_surface(None, LOGIN);
    assert_eq!(command, Command::Complete(Err(AuthorizationError::NoInitialUrl)));
    assert!(flow.is_finished());
    assert_eq!(flow.surface(), Surface::Unopened);
    let (flow, command) = flow.advance(Event::Done);
    assert_eq!(command, Command::Refuse);
    assert_eq!(flow.surface(), Surface::Unopened);
}

#[test]
fn unreadable_return_point_comes_before_a_malformed_address() {
    let (_, command) = AuthorizationFlow::begin_single_surface(None, "not a url");
    assert_eq!(command, Command::Complete(Err(AuthorizationError::NoInitialUrl)));
}

#[test]
fn flows_begin_from_a_given_parse() {
    let (flow, command) =
        AuthorizationFlow::multi_surface_from(true, Some(Ok("https://given/".to_string())));
    assert_eq!(command, Command::Open("https://given/".to_string()));
    assert!(flow.is_armed());
    let (flow, command) =
        AuthorizationFlow::multi_surface_from(false, Some(Err("no good".to_string())));
    assert_eq!(
        command,
        Command::Complete(Err(AuthorizationError::InvalidUrl("no good".to_string())))
    );
    assert!(flow.is_finished());
    let (flow, command) = AuthorizationFlow::single_surface_from(
        Some("https://app.local/".to_string()),
        Some(Ok("https://given/".to_string())),
    );
    assert_eq!(command, Command::Open("https://given/".to_string()));
    assert!(!flow.is_armed());
    let (_, command) =
        AuthorizationFlow::single_surface_from(None, Some(Ok("https://given/".to_string())));
    assert_eq!(command, Command::Complete(Err(AuthorizationError::NoInitialUrl)));
}

#[test]
fn flows_give_up_on_an_address_that_was_too_long_to_parse() {
    let (flow, command) = AuthorizationFlow::multi_surface_from(true, None);
    assert_eq!(command, Command::Abandon(Fault::TooLong));
    assert!(flow.is_finished());
    assert_eq!(flow.surface(), Surface::Unopened);
    let (flow, command) = flow.advance(Event::Done);
    assert_eq!(command, Command::Refuse);
    assert_eq!(flow.surface(), Surface::Unopened);

    let (flow, command) =
        AuthorizationFlow::single_surface_from(Some("https://app.local/".to_string()), None);
    assert_eq!(command, Command::Abandon(Fault::TooLong));
    assert!(flow.is_finished());
    assert_eq!(flow.surface(), Surface::Unopened);

    let (_, command) = AuthorizationFlow::single_surface_from(None, None);
    assert_eq!(command, Command::Complete(Err(AuthorizationError::NoInitialUrl)));
}

#[test]
fn surface_that_does_not_open_ends_the_request() {
    let (flow, _) = AuthorizationFlow::begin_multi_surface(LOGIN, false);
    let (flow, command) = flow.advance(failed("no display"));
    assert_eq!(
        command,
        Command::Complete(Err(AuthorizationError::Platform("no display".to_string())))
    );
    assert!(flow.is_finished());
    assert_eq!(flow.surface(), Surface::Unopened);
}

#[test]
fn token_is_held_back_when_the_surface_does_not_close() {
    let flow = polling_multi(false);
    let (flow, command) = flow.advance(observed(CALLBACK));
    assert_eq!(command, Command::Close);
    let (flow, command) = flow.advance(failed("window is gone"));
    assert_eq!(
        command,
        Command::Complete(Err(AuthorizationError::Platform("window is gone".to_string())))
    );
    assert!(flow.is_finished());
    assert_eq!(flow.surface(), Surface::Stuck);
}

#[test]
fn stalled_page_is_loaded_again_once() {
    let flow = polling_multi(true);
    assert!(flow.is_armed());
    assert!(!flow.has_refreshed());

    let (flow, command) = flow.advance(observed(SIGN_IN));
    assert_eq!(command, Command::Renavigate(SIGN_IN.to_string()));
    assert_eq!(flow.phase(), Phase::Refreshing);
    assert!(flow.has_refreshed());
    assert!(!flow.is_armed());

    let (mut flow, command) = flow.advance(Event::Done);
    assert_eq!(command, Command::Observe);
    assert_eq!(flow.phase(), Phase::Polling);

    for _ in 0..10 {
        let (next, command) = flow.advance(observed(SIGN_IN));
        assert_eq!(command, Command::WaitAndObserve);
        assert_eq!(next.phase(), Phase::Polling);
        flow = next;
    }

    let (flow, command) = flow.advance(observed(CALLBACK));
    assert_eq!(command, Command::Close);
    let (_, command) = flow.advance(Event::Done);
    assert_eq!(command, Command::Complete(Ok("ABC123".to_string())));
}

#[test]
fn stalled_page_is_left_alone_without_the_workaround() {
    let mut flow = polling_multi(false);
    for _ in 0..5 {
        let (next, command) = flow.advance(observed(SIGN_IN));
        assert_eq!(command, Command::WaitAndObserve);
        assert!(!next.has_refreshed());
        flow = next;
    }
}

#[test]
fn failed_reload_closes_the_surface_before_the_request_ends() {
    let flow = polling_multi(true);
    let (flow, command) = flow.advance(observed(SIGN_IN));
    assert_eq!(command, Command::Renavigate(SIGN_IN.to_string()));
    let (flow, command) = flow.advance(failed("navigation refused"));
    assert_eq!(command, Command::Close);
    assert_eq!(flow.phase(), Phase::Closing);
    let (flow, command) = flow.advance(Event::Done);
    assert_eq!(
        command,
        Command::Complete(Err(AuthorizationError::Platform("navigation refused".to_string())))
    );
    assert!(flow.is_finished());
    assert_eq!(flow.surface(), Surface::Closed);
}

#[test]
fn first_failure_is_reported_when_closing_fails_too() {
    let flow = polling_multi(true);
    let (flow, _) = flow.advance(observed(SIGN_IN));
    let (flow, _) = flow.advance(failed("navigation refused"));
    let (flow, command) = flow.advance(failed("window is gone"));
    assert_eq!(
        command,
        Command::Complete(Err(AuthorizationError::Platform("navigation refused".to_string())))
    );
    assert_eq!(flow.surface(), Surface::Stuck);
}

#[test]
fn flow_without_the_marker_stays_pending() {
    let mut flow = polling_multi(false);
    let addresses = [
        None,
        Some("about:blank"),
        Some("https://provider/auth?step=1"),
        Some("https://provider/auth?step=2&token=ABC123"),
        Some("https://provider/callback?musicusertoken=ABC123"),
        None,
    ];
    for round in 0..200 {
        let address = addresses[round % addresses.len()];
        let (next, command) = flow.advance(Event::Observed(address.map(str::to_string)));
        assert_eq!(command, Command::WaitAndObserve);
        assert_eq!(next.phase(), Phase::Polling);
        assert_eq!(next.surface(), Surface::Open);
        flow = next;
    }
}

#[test]
fn marker_without_parameter_closes_the_surface_and_gives_up() {
    let flow = polling_multi(false);
    let (flow, command) = flow.advance(observed("https://provider/musicUserToken"));
    assert_eq!(command, Command::Close);
    assert_eq!(flow.phase(), Phase::Closing);
    assert_eq!(flow.surface(), Surface::Open);
    let (flow, command) = flow.advance(Event::Done);
    assert_eq!(command, Command::Abandon(Fault::TokenUnreadable));
    assert!(flow.is_finished());
    assert_eq!(flow.surface(), Surface::Closed);
    let (_, command) = flow.advance(observed(CALLBACK));
    assert_eq!(command, Command::Refuse);
}

#[test]
fn marker_without_parameter_gives_up_in_a_single_surface_flow_too() {
    let flow = polling_single("https://app.local/home");
    let (flow, command) = flow.advance(observed("https://provider/cb#musicUserToken=1"));
    assert_eq!(command, Command::Close);
    let (flow, command) = flow.advance(Event::Done);
    assert_eq!(command, Command::Abandon(Fault::TokenUnreadable));
    assert_eq!(flow.surface(), Surface::Closed);
}

#[test]
fn giving_up_is_told_when_closing_fails_too() {
    let flow = polling_multi(false);
    let (flow, _) = flow.advance(observed("https://provider/musicUserToken"));
    let (flow, command) = flow.advance(failed("window is gone"));
    assert_eq!(command, Command::Abandon(Fault::TokenUnreadable));
    assert!(flow.is_finished());
    assert_eq!(flow.surface(), Surface::Stuck);
}

#[test]
fn events_out_of_turn_are_refused_and_change_nothing() {
    let (flow, _) = AuthorizationFlow::begin_multi_surface(LOGIN, false);
    let (flow, command) = flow.advance(observed(CALLBACK));
    assert_eq!(command, Command::Refuse);
    assert_eq!(flow.phase(), Phase::Opening);

    let (flow, _) = flow.advance(Event::Done);
    let (flow, command) = flow.advance(Event::Done);
    assert_eq!(command, Command::Refuse);
    let (flow, command) = flow.advance(failed("late"));
    assert_eq!(command, Command::Refuse);
    assert_eq!(flow.phase(), Phase::Polling);

    let (flow, _) = flow.advance(observed(CALLBACK));
    let (flow, command) = flow.advance(observed(CALLBACK));
    assert_eq!(command, Command::Refuse);
    assert_eq!(flow.phase(), Phase::Closing);

    let (flow, command) = flow.advance(Event::Done);
    assert_eq!(command, Command::Complete(Ok("ABC123".to_string())));
    for event in [Event::Done, failed("late"), observed(CALLBACK), Event::Observed(None)] {
        let (next, command) = AuthorizationFlow::advance(
            AuthorizationFlow::begin_single_surface(None, LOGIN).0,
            event,
        );
        assert_eq!(command, Command::Refuse);
        assert!(next.is_finished());
    }
    let (flow, command) = flow.advance(Event::Done);
    assert_eq!(command, Command::Refuse);
    assert!(flow.is_finished());
    assert_eq!(flow.surface(), Surface::Closed);
}

#[test]
fn single_surface_flow_hands_the_token_back() {
    let (flow, command) = AuthorizationFlow::begin_single_surface(
        Some("https://app.local/home".to_string()),
        LOGIN,
    );
    assert_eq!(command, Command::Open(LOGIN.to_string()));
    assert_eq!(flow.kind(), FlowKind::SingleSurface);

    let (flow, command) = flow.advance(Event::Done);
    assert_eq!(command, Command::Observe);
    let (flow, command) = flow.advance(Event::Observed(None));
    assert_eq!(command, Command::WaitAndObserve);

    let (flow, command) = flow.advance(observed(CALLBACK));
    assert_eq!(
        command,
        Command::HandBack {
            address: "https://app.local/home?musicUserToken=ABC123".to_string(),
            script: "window.location.href = 'https://app.local/home?musicUserToken=ABC123'"
                .to_string(),
        }
    );
    assert_eq!(flow.phase(), Phase::HandingBack);

    let (flow, command) = flow.advance(Event::Done);
    assert_eq!(command, Command::Complete(Ok("ABC123".to_string())));
    assert!(flow.is_finished());
    assert_eq!(flow.surface(), Surface::Open);
}

#[test]
fn single_surface_flow_never_reloads_a_stalled_page() {
    let flow = polling_single("https://app.local/home");
    assert!(!flow.is_armed());
    let (flow, command) = flow.advance(observed(SIGN_IN));
    assert_eq!(command, Command::WaitAndObserve);
    assert!(!flow.has_refreshed());
}

#[test]
fn failed_hand_back_closes_the_surface_before_the_request_ends() {
    let flow = polling_single("https://app.local/home");
    let (flow, command) = flow.advance(observed(CALLBACK));
    assert!(matches!(command, Command::HandBack { .. }));
    let (flow, command) = flow.advance(failed("script refused"));
    assert_eq!(command, Command::Close);
    let (flow, command) = flow.advance(Event::Done);
    assert_eq!(
        command,
        Command::Complete(Err(AuthorizationError::Platform("script refused".to_string())))
    );
    assert_eq!(flow.surface(), Surface::Closed);
}

#[test]
fn return_point_that_is_no_address_closes_the_surface_and_is_invalid() {
    let flow = polling_single("home");
    let (flow, command) = flow.advance(observed(CALLBACK));
    assert_eq!(command, Command::Close);
    assert_eq!(flow.phase(), Phase::Closing);
    let (flow, command) = flow.advance(Event::Done);
    assert_eq!(
        command,
        Command::Complete(Err(AuthorizationError::InvalidUrl(
            "relative URL without a base".to_string()
        )))
    );
    assert_eq!(flow.surface(), Surface::Closed);
}

#[test]
fn token_too_long_to_hand_back_closes_the_surface_and_gives_up() {
    let long = "a".repeat(1_431_655_744);
    let flow = polling_single("https://app.local/home");
    let (flow, command) = flow.settle(CALLBACK.to_string(), Sighting::Token(long));
    assert_eq!(command, Command::Close);
    assert_eq!(flow.phase(), Phase::Closing);
    let (flow, command) = flow.advance(Event::Done);
    assert_eq!(command, Command::Abandon(Fault::TooLong));
    assert!(flow.is_finished());
    assert_eq!(flow.surface(), Surface::Closed);
}

#[test]
fn settle_goes_by_the_sighting_it_is_given() {
    let flow = polling_multi(true);
    let (flow, command) = flow.settle("about:blank".to_string(), Sighting::Nothing);
    assert_eq!(command, Command::WaitAndObserve);
    let (flow, command) = flow.settle("about:blank".to_string(), Sighting::Stalled);
    assert_eq!(command, Command::Renavigate("about:blank".to_string()));
    let (flow, command) = flow.settle("about:blank".to_string(), Sighting::Nothing);
    assert_eq!(command, Command::Refuse);
    let (flow, _) = flow.advance(Event::Done);
    let (flow, command) = flow.settle("about:blank".to_string(), Sighting::Stalled);
    assert_eq!(command, Command::Refuse);
    let (flow, command) =
        flow.settle("about:blank".to_string(), Sighting::Token("given".to_string()));
    assert_eq!(command, Command::Close);
    let (_, command) = flow.advance(Event::Done);
    assert_eq!(command, Command::Complete(Ok("given".to_string())));

    let flow = polling_multi(false);
    let (flow, command) = flow.settle("about:blank".to_string(), Sighting::Unreadable);
    assert_eq!(command, Command::Close);
    let (_, command) = flow.advance(Event::Done);
    assert_eq!(command, Command::Abandon(Fault::TokenUnreadable));
}

#[test]
fn hand_back_goes_by_the_address_it_is_given() {
    let flow = polling_single("https://app.local/home");
    let (flow, command) =
        flow.hand_back("T".to_string(), Ok("https://given/?musicUserToken=T".to_string()));
    assert_eq!(
        command,
        Command::HandBack {
            address: "https://given/?musicUserToken=T".to_string(),
            script: "window.location.href = 'https://given/?musicUserToken=T'".to_string(),
        }
    );
    let (_, command) = flow.advance(Event::Done);
    assert_eq!(command, Command::Complete(Ok("T".to_string())));

    let flow = polling_single("https://app.local/home");
    let (flow, command) = flow.hand_back("T".to_string(), Err(AuthorizationError::NoInitialUrl));
    assert_eq!(command, Command::Close);
    let (_, command) = flow.advance(Event::Done);
    assert_eq!(command, Command::Complete(Err(AuthorizationError::NoInitialUrl)));

    let flow = polling_multi(false);
    let (flow, command) = flow.hand_back("T".to_string(), Ok("https://given/".to_string()));
    assert_eq!(command, Command::Refuse);
    assert_eq!(flow.phase(), Phase::Polling);
}
