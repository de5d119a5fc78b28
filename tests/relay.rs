use channel_relay::directory::{ChannelKind, Destination};
use channel_relay::dispatch::{
    after_crosspost, after_directory, after_send, respond, scope_of, type_hint_of, AfterSend,
    validate, Outcome, SendStep, TypeHint,
};
use channel_relay::resolver::{resolve, ResolutionError, SearchScope};

fn s(v: &str) -> String {
    v.to_string()
}

fn hint(v: Option<&str>) -> TypeHint {
    type_hint_of(&v.map(|t| t.to_string()))
}

#[test]
fn type_hint_parsing() {
    assert_eq!(hint(None), TypeHint::Unspecified);
    assert_eq!(hint(Some("thread")), TypeHint::Thread);
    assert_eq!(hint(Some("news")), TypeHint::News);
    assert_eq!(hint(Some("News")), TypeHint::Unspecified);
    assert_eq!(scope_of(TypeHint::Thread), SearchScope::Threads);
    assert_eq!(scope_of(TypeHint::News), SearchScope::Channels);
}

#[test]
fn resolve_filters_by_name_and_kind() {
    let snap = vec![
        Destination::channel(1, s("general"), ChannelKind::Other),
        Destination::thread(2, s("general")),
        Destination::channel(3, s("General"), ChannelKind::Text),
        Destination::channel(4, s("general"), ChannelKind::News),
    ];
    assert_eq!(resolve(&snap, &s("general"), SearchScope::Channels), Ok(3));
    assert_eq!(resolve(&snap, &s("general"), SearchScope::Threads), Ok(1));
    assert_eq!(resolve(&snap, &s("general "), SearchScope::Channels), Err(ResolutionError::NotFound));
    assert_eq!(resolve(&vec![], &s("general"), SearchScope::Channels), Err(ResolutionError::NotFound));
}

#[test]
fn resolve_twice_gives_same_outcome() {
    let snap = vec![
        Destination::channel(1, s("a"), ChannelKind::Text),
        Destination::channel(2, s("a"), ChannelKind::Text),
    ];
    let first = resolve(&snap, &s("a"), SearchScope::Channels);
    let second = resolve(&snap, &s("a"), SearchScope::Channels);
    assert_eq!(first, Err(ResolutionError::Ambiguous));
    assert_eq!(first, second);
}

#[test]
fn crosspost_only_for_news_after_send() {
    assert_eq!(after_send(TypeHint::News, true), AfterSend::Crosspost);
    assert_eq!(after_send(TypeHint::News, false), AfterSend::Finish(Outcome::UpstreamError));
    assert_eq!(after_send(TypeHint::Thread, true), AfterSend::Finish(Outcome::Success));
    assert_eq!(after_send(TypeHint::Unspecified, true), AfterSend::Finish(Outcome::Success));
}

#[test]
fn scenario_one_text_channel() {
    let h = hint(None);
    let dir = Some(vec![Destination::channel(11, s("general"), ChannelKind::Text)]);
    assert_eq!(after_directory(&dir, &s("general"), h), SendStep::Send(11));
    let AfterSend::Finish(outcome) = after_send(h, true) else { panic!("no crosspost expected") };
    let r = respond(outcome);
    assert_eq!((r.status_code, r.message), (200, "Success"));
}

#[test]
fn scenario_missing_channel() {
    let dir = Some(vec![Destination::channel(11, s("general"), ChannelKind::Text)]);
    let step = after_directory(&dir, &s("missing"), hint(None));
    assert_eq!(step, SendStep::Finish(Outcome::NotFound(SearchScope::Channels)));
    let r = respond(Outcome::NotFound(SearchScope::Channels));
    assert_eq!((r.status_code, r.message), (400, "No channel found"));
}

#[test]
fn scenario_two_news_channels() {
    let dir = Some(vec![
        Destination::channel(1, s("alerts"), ChannelKind::News),
        Destination::channel(2, s("alerts"), ChannelKind::News),
    ]);
    let step = after_directory(&dir, &s("alerts"), hint(Some("news")));
    let SendStep::Finish(outcome) = step else { panic!("expected a finish") };
    let r = respond(outcome);
    assert_eq!((r.status_code, r.message), (400, "Multiple channels found"));
}

#[test]
fn scenario_thread() {
    let h = hint(Some("thread"));
    let dir = Some(vec![
        Destination::thread(42, s("support-42")),
        Destination::thread(43, s("support-43")),
    ]);
    assert_eq!(after_directory(&dir, &s("support-42"), h), SendStep::Send(42));
    assert_eq!(after_send(h, true), AfterSend::Finish(Outcome::Success));
    let r = respond(Outcome::Success);
    assert_eq!((r.status_code, r.message), (200, "Success"));
    let dir = Some(vec![Destination::thread(42, s("a")), Destination::thread(43, s("a"))]);
    let SendStep::Finish(o) = after_directory(&dir, &s("a"), h) else { panic!("expected a finish") };
    assert_eq!(respond(o).message, "Multiple threads found");
    let SendStep::Finish(o) = after_directory(&dir, &s("b"), h) else { panic!("expected a finish") };
    assert_eq!(respond(o).message, "No thread found");
}

#[test]
fn scenario_news_crosspost() {
    let h = hint(Some("news"));
    let dir = Some(vec![Destination::channel(7, s("updates"), ChannelKind::News)]);
    assert_eq!(after_directory(&dir, &s("updates"), h), SendStep::Send(7));
    assert_eq!(after_send(h, true), AfterSend::Crosspost);
    let r = respond(after_crosspost(true));
    assert_eq!((r.status_code, r.message), (200, "Success"));
    assert_eq!(after_crosspost(false), Outcome::UpstreamError);
}

#[test]
fn scenario_fetch_failure() {
    let step = after_directory(&None, &s("general"), hint(None));
    assert_eq!(step, SendStep::Finish(Outcome::UpstreamError));
    assert_eq!(respond(Outcome::UpstreamError).status_code, 500);
    let dir = Some(vec![Destination::channel(11, s("general"), ChannelKind::Text)]);
    assert_eq!(after_directory(&dir, &s("general"), hint(None)), SendStep::Send(11));
}

#[test]
fn validation_of_fields() {
    let ok = validate(Some(s("general")), Some(s("hi")), Some(s("news"))).unwrap();
    assert_eq!((ok.name.as_str(), ok.message.as_str(), ok.hint), ("general", "hi", TypeHint::News));
    assert!(matches!(validate(None, Some(s("hi")), None), Err(Outcome::Invalid)));
    assert!(matches!(validate(Some(s("general")), None, None), Err(Outcome::Invalid)));
    let r = respond(Outcome::Invalid);
    assert_eq!((r.status_code, r.message), (400, "Invalid request body"));
}
