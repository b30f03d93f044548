use mediawiki::{
    Action, Call, Config, Encoding, Error, Event, Json, Mediawiki, Method, Phase, Reply,
    RequestBuilder, RetryPolicy,
};

fn wiki() -> Mediawiki {
    Mediawiki::new(Config {
        useragent: "test-agent/1.0".to_string(),
        username: "user".to_string(),
        password: "secret".to_string(),
        baseapi: "http://wiki.test/api.php".to_string(),
    })
}

fn reply_with(status: u16, cookies: &[&str], body: &str) -> Reply {
    Reply {
        status,
        status_line: format!("{} Testing", status),
        set_cookies: cookies.iter().map(|c| c.to_string()).collect(),
        body: body.to_string(),
    }
}

fn cookie_header_of(session: &Mediawiki) -> String {
    session.prepare(&RequestBuilder::new(), Encoding::Query).cookie
}

fn query_call() -> Call {
    let mut request = RequestBuilder::new();
    request.arg("action", "query");
    request.get()
}

fn bounded(max: u32) -> Call {
    Call::new(
        RequestBuilder::new(),
        Encoding::Query,
        RetryPolicy { delay_secs: 2, max_attempts: Some(max) },
    )
}

#[test]
fn the_default_policy_waits_five_seconds_without_end() {
    let policy = RetryPolicy::forever();
    assert_eq!(policy.delay_secs, 5);
    assert_eq!(policy.max_attempts, None);
}

#[test]
fn a_call_starts_in_building() {
    let call = query_call();
    assert_eq!(call.phase(), Phase::Building);
    assert_eq!(call.attempts(), 0);
    assert_eq!(call.encoding(), Encoding::Query);
    assert_eq!(RequestBuilder::new().post().encoding(), Encoding::Form);
    assert_eq!(RequestBuilder::new().multipart().encoding(), Encoding::Multipart);
}

#[test]
fn ready_sends_the_request() {
    let mut session = wiki();
    let mut call = query_call();
    match call.step(&mut session, Event::Ready) {
        Some(Action::Send(out)) => {
            assert_eq!(out.method, Method::Get);
            assert_eq!(out.url, "http://wiki.test/api.php");
            assert_eq!(out.user_agent, "test-agent/1.0");
            assert_eq!(
                out.args,
                vec![
                    ("format".to_string(), "json".to_string()),
                    ("action".to_string(), "query".to_string())
                ]
            );
        }
        other => panic!("unexpected {:?}", other),
    }
    assert_eq!(call.phase(), Phase::Sending);
    assert_eq!(call.attempts(), 1);
}

#[test]
fn a_good_reply_ends_the_call_in_success() {
    let mut session = wiki();
    let mut call = query_call();
    call.step(&mut session, Event::Ready);
    let action = call.step(&mut session, Event::Replied(reply_with(200, &[], "{\"a\":\"b\"}")));
    match action {
        Some(Action::Done(Ok(json))) => {
            assert_eq!(json, Json::Object(vec![("a".to_string(), Json::String("b".to_string()))]))
        }
        other => panic!("unexpected {:?}", other),
    }
    assert_eq!(call.phase(), Phase::Success);
}

#[test]
fn an_api_error_ends_the_call_at_once() {
    let mut session = wiki();
    let mut call = query_call();
    call.step(&mut session, Event::Ready);
    let body = "{\"error\":{\"code\":\"readapidenied\"}}";
    let action = call.step(&mut session, Event::Replied(reply_with(200, &[], body)));
    match action {
        Some(Action::Done(Err(Error::Json(json)))) => {
            assert_eq!(json, mediawiki::json::decode(body).unwrap())
        }
        other => panic!("unexpected {:?}", other),
    }
    assert_eq!(call.phase(), Phase::ApiError);
    assert_eq!(call.attempts(), 1);
}

#[test]
fn malformed_json_ends_the_call_at_once() {
    let mut session = wiki();
    let mut call = query_call();
    call.step(&mut session, Event::Ready);
    let action = call.step(&mut session, Event::Replied(reply_with(200, &[], "{\"a\":")));
    assert!(matches!(action, Some(Action::Done(Err(Error::Parse(_))))));
    assert_eq!(call.phase(), Phase::Fatal);
}

#[test]
fn a_malformed_cookie_ends_the_call_at_once() {
    let mut session = wiki();
    let mut call = query_call();
    call.step(&mut session, Event::Ready);
    let action = call.step(&mut session, Event::Replied(reply_with(200, &["junk"], "{}")));
    assert!(matches!(action, Some(Action::Done(Err(Error::Cookie(_))))));
    assert_eq!(call.phase(), Phase::Fatal);
}

#[test]
fn a_transport_failure_is_tried_again_after_five_seconds() {
    let mut session = wiki();
    let mut call = query_call();
    call.step(&mut session, Event::Ready);
    let action = call.step(&mut session, Event::Failed("connection refused".to_string()));
    match action {
        Some(Action::Wait(5, Error::Transport(why))) => assert_eq!(why, "connection refused"),
        other => panic!("unexpected {:?}", other),
    }
    assert_eq!(call.phase(), Phase::Retrying);
    let action = call.step(&mut session, Event::Waited);
    assert!(matches!(action, Some(Action::Send(_))));
    assert_eq!(call.phase(), Phase::Sending);
    assert_eq!(call.attempts(), 2);
}

#[test]
fn a_bad_status_is_tried_again_like_a_transport_failure() {
    let mut session = wiki();
    let mut call = query_call();
    call.step(&mut session, Event::Ready);
    let action = call.step(&mut session, Event::Replied(reply_with(502, &[], "Bad Gateway")));
    match action {
        Some(Action::Wait(5, Error::Status(line))) => assert_eq!(line, "502 Testing"),
        other => panic!("unexpected {:?}", other),
    }
    assert_eq!(call.phase(), Phase::Retrying);
}

#[test]
fn a_failure_followed_by_a_success_yields_the_success() {
    let mut session = wiki();
    let mut call = query_call();
    assert!(matches!(call.step(&mut session, Event::Ready), Some(Action::Send(_))));
    assert!(matches!(
        call.step(&mut session, Event::Failed("timed out".to_string())),
        Some(Action::Wait(5, _))
    ));
    assert_eq!(cookie_header_of(&session), "");
    assert!(matches!(call.step(&mut session, Event::Waited), Some(Action::Send(_))));
    let action =
        call.step(&mut session, Event::Replied(reply_with(200, &["sid=1"], "{\"ok\":true}")));
    match action {
        Some(Action::Done(Ok(json))) => {
            assert_eq!(json, Json::Object(vec![("ok".to_string(), Json::Bool(true))]))
        }
        other => panic!("unexpected {:?}", other),
    }
    assert_eq!(cookie_header_of(&session), "sid=1");
    assert_eq!(call.phase(), Phase::Success);
}

#[test]
fn the_retry_sends_the_same_request_again() {
    let mut session = wiki();
    let mut call = query_call();
    let first = match call.step(&mut session, Event::Ready) {
        Some(Action::Send(out)) => out,
        other => panic!("unexpected {:?}", other),
    };
    call.step(&mut session, Event::Failed("reset".to_string()));
    let second = match call.step(&mut session, Event::Waited) {
        Some(Action::Send(out)) => out,
        other => panic!("unexpected {:?}", other),
    };
    assert_eq!(first.args, second.args);
    assert_eq!(first.url, second.url);
    assert_eq!(first.method, second.method);
    assert_eq!(first.cookie, second.cookie);
}

#[test]
fn the_unbounded_policy_never_gives_up() {
    let mut session = wiki();
    let mut call = query_call();
    let mut event = Event::Ready;
    for round in 0..200u32 {
        assert!(matches!(call.step(&mut session, event), Some(Action::Send(_))));
        assert_eq!(call.attempts(), round + 1);
        assert!(matches!(
            call.step(&mut session, Event::Failed("down".to_string())),
            Some(Action::Wait(5, _))
        ));
        event = Event::Waited;
    }
    assert_eq!(call.phase(), Phase::Retrying);
}

#[test]
fn a_bounded_policy_gives_up_with_the_transport_failure() {
    let mut session = wiki();
    let mut call = bounded(2);
    call.step(&mut session, Event::Ready);
    assert!(matches!(
        call.step(&mut session, Event::Failed("first".to_string())),
        Some(Action::Wait(2, _))
    ));
    call.step(&mut session, Event::Waited);
    match call.step(&mut session, Event::Failed("second".to_string())) {
        Some(Action::Done(Err(Error::Transport(why)))) => assert_eq!(why, "second"),
        other => panic!("unexpected {:?}", other),
    }
    assert_eq!(call.phase(), Phase::Fatal);
    assert_eq!(call.attempts(), 2);
}

#[test]
fn a_bounded_policy_gives_up_with_the_status() {
    let mut session = wiki();
    let mut call = bounded(1);
    call.step(&mut session, Event::Ready);
    match call.step(&mut session, Event::Replied(reply_with(500, &[], "boom"))) {
        Some(Action::Done(Err(Error::Status(line)))) => assert_eq!(line, "500 Testing"),
        other => panic!("unexpected {:?}", other),
    }
    assert_eq!(call.phase(), Phase::Fatal);
}

#[test]
fn a_policy_of_no_attempts_still_tries_once() {
    let mut session = wiki();
    let mut call = bounded(0);
    assert!(matches!(call.step(&mut session, Event::Ready), Some(Action::Send(_))));
    assert!(matches!(
        call.step(&mut session, Event::Failed("x".to_string())),
        Some(Action::Done(Err(Error::Transport(_))))
    ));
}

#[test]
fn events_out_of_turn_change_nothing() {
    let mut session = wiki();
    let mut call = query_call();
    assert!(call.step(&mut session, Event::Waited).is_none());
    assert!(call.step(&mut session, Event::Failed("x".to_string())).is_none());
    assert!(call.step(&mut session, Event::Replied(reply_with(200, &["a=1"], "{}"))).is_none());
    assert_eq!(call.phase(), Phase::Building);
    assert_eq!(call.attempts(), 0);
    assert_eq!(cookie_header_of(&session), "");
    call.step(&mut session, Event::Ready);
    assert!(call.step(&mut session, Event::Ready).is_none());
    assert!(call.step(&mut session, Event::Waited).is_none());
    assert_eq!(call.phase(), Phase::Sending);
    assert_eq!(call.attempts(), 1);
}

#[test]
fn a_call_that_is_over_takes_no_more_events() {
    let mut session = wiki();
    let mut call = query_call();
    call.step(&mut session, Event::Ready);
    call.step(&mut session, Event::Replied(reply_with(200, &[], "{}")));
    assert_eq!(call.phase(), Phase::Success);
    assert!(call.step(&mut session, Event::Ready).is_none());
    assert!(call.step(&mut session, Event::Waited).is_none());
    assert!(call.step(&mut session, Event::Failed("x".to_string())).is_none());
    assert!(call.step(&mut session, Event::Replied(reply_with(200, &["late=1"], "{}"))).is_none());
    assert_eq!(call.phase(), Phase::Success);
    assert_eq!(cookie_header_of(&session), "");
}

#[test]
fn the_cookies_of_the_session_go_out_with_a_call() {
    let mut session = wiki();
    let mut first = query_call();
    first.step(&mut session, Event::Ready);
    first.step(&mut session, Event::Replied(reply_with(200, &["wikiSession=xyz; path=/"], "{}")));
    let mut second = RequestBuilder::new().post();
    match second.step(&mut session, Event::Ready) {
        Some(Action::Send(out)) => {
            assert_eq!(out.cookie, "wikiSession=xyz");
            assert_eq!(out.method, Method::Post);
            assert_eq!(out.encoding, Encoding::Form);
        }
        other => panic!("unexpected {:?}", other),
    }
}
