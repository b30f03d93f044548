use mediawiki::json::decode;
use mediawiki::login::check_login;
use mediawiki::{
    Action, Call, Config, Csrf, CreateAccount, Encoding, Error, Event, Json, Login, LoginAction,
    LoginEvent, LoginStage, Mediawiki, Method, Patrol, Phase, Reply, Rollback, Token, TokenType,
    UserRights, Watch,
};

fn config(username: &str, password: &str) -> Config {
    Config {
        useragent: "test-agent/1.0".to_string(),
        username: username.to_string(),
        password: password.to_string(),
        baseapi: "http://wiki.test/api.php".to_string(),
    }
}

fn wiki() -> Mediawiki {
    Mediawiki::new(config("user", "secret"))
}

fn pair(key: &str, val: &str) -> (String, String) {
    (key.to_string(), val.to_string())
}

fn sent_by(call: &mut Call, session: &mut Mediawiki) -> mediawiki::Outgoing {
    match call.step(session, Event::Ready) {
        Some(Action::Send(out)) => out,
        other => panic!("unexpected {:?}", other),
    }
}

fn ok_reply(cookies: &[&str], body: &str) -> Reply {
    Reply {
        status: 200,
        status_line: "200 OK".to_string(),
        set_cookies: cookies.iter().map(|c| c.to_string()).collect(),
        body: body.to_string(),
    }
}

#[test]
fn token_kinds_have_their_names() {
    assert_eq!((CreateAccount::in_type(), CreateAccount::out_type()), ("createaccount", "createaccounttoken"));
    assert_eq!((Csrf::in_type(), Csrf::out_type()), ("csrf", "csrftoken"));
    assert_eq!((Login::in_type(), Login::out_type()), ("login", "logintoken"));
    assert_eq!((Patrol::in_type(), Patrol::out_type()), ("patrol", "patroltoken"));
    assert_eq!((Rollback::in_type(), Rollback::out_type()), ("rollback", "rollbacktoken"));
    assert_eq!((UserRights::in_type(), UserRights::out_type()), ("userrights", "userrightstoken"));
    assert_eq!((Watch::in_type(), Watch::out_type()), ("watch", "watchtoken"));
}

#[test]
fn a_token_keeps_its_string() {
    let token: Token<Csrf> = Token::new("abc+\\");
    assert_eq!(token.value(), "abc+\\");
    let empty: Token<Watch> = Token::new("");
    assert_eq!(empty.value(), "");
}

#[test]
fn token_request_asks_for_the_kind() {
    let session = wiki();
    let request = session.token_request::<Csrf>();
    assert_eq!(
        request.args(),
        &vec![
            pair("format", "json"),
            pair("action", "query"),
            pair("meta", "tokens"),
            pair("type", "csrf")
        ]
    );
    assert_eq!(session.token_request::<Patrol>().value("type"), Some("patrol"));
    assert_eq!(session.token_request::<Login>().value("type"), Some("login"));
}

#[test]
fn token_round_trip() {
    let session = wiki();
    let answer = decode("{\"query\":{\"tokens\":{\"csrftoken\":\"abc+\\\\\"}}}").unwrap();
    let token = session.get_token::<Csrf>(&answer).unwrap();
    assert_eq!(token.value(), "abc+\\");
}

#[test]
fn get_token_takes_the_field_of_its_kind() {
    let session = wiki();
    let answer = decode(
        "{\"query\":{\"tokens\":{\"csrftoken\":\"c\",\"watchtoken\":\"w\",\"logintoken\":\"l\"}}}",
    )
    .unwrap();
    assert_eq!(session.get_token::<Csrf>(&answer).unwrap().value(), "c");
    assert_eq!(session.get_token::<Watch>(&answer).unwrap().value(), "w");
    assert_eq!(session.get_token::<Login>(&answer).unwrap().value(), "l");
    match session.get_token::<Patrol>(&answer) {
        Err(Error::Shape(path, json)) => {
            assert_eq!(path, "query.tokens.patroltoken");
            assert_eq!(json, answer);
        }
        other => panic!("unexpected {:?}", other),
    }
}

#[test]
fn get_token_refuses_answers_of_the_wrong_shape() {
    let session = wiki();
    for body in [
        "{}",
        "{\"query\":{}}",
        "{\"query\":{\"tokens\":{}}}",
        "{\"query\":{\"tokens\":{\"csrftoken\":5}}}",
        "{\"query\":{\"tokens\":[\"csrftoken\"]}}",
        "{\"tokens\":{\"csrftoken\":\"x\"}}",
        "[]",
    ] {
        let answer = decode(body).unwrap();
        match session.get_token::<Csrf>(&answer) {
            Err(Error::Shape(path, json)) => {
                assert_eq!(path, "query.tokens.csrftoken");
                assert_eq!(json, answer);
            }
            other => panic!("{} gave {:?}", body, other),
        }
    }
}

#[test]
fn login_request_sends_the_credentials_with_the_token() {
    let session = wiki();
    let token: Token<Login> = Token::new("tok+\\");
    let request = session.login_request(&token);
    assert_eq!(
        request.args(),
        &vec![
            pair("format", "json"),
            pair("action", "login"),
            pair("lgname", "user"),
            pair("lgpassword", "secret"),
            pair("lgtoken", "tok+\\")
        ]
    );
}

#[test]
fn login_success_is_accepted() {
    let answer = decode("{\"login\":{\"result\":\"Success\"}}").unwrap();
    assert!(check_login(answer).is_ok());
}

#[test]
fn login_failure_carries_the_exact_body() {
    for body in [
        "{\"login\":{\"result\":\"Failed\"}}",
        "{\"login\":{\"result\":\"NeedToken\",\"token\":\"t\"}}",
        "{\"login\":{\"result\":\"success\"}}",
        "{\"login\":{\"result\":\"\"}}",
        "{\"login\":{\"result\":\"Success \"}}",
    ] {
        let answer = decode(body).unwrap();
        match check_login(answer.clone()) {
            Err(Error::Json(json)) => assert_eq!(json, answer),
            other => panic!("{} gave {:?}", body, other),
        }
    }
}

#[test]
fn login_answer_without_a_result_is_of_the_wrong_shape() {
    for body in ["{}", "{\"login\":{}}", "{\"login\":{\"result\":1}}", "{\"login\":\"Success\"}"] {
        let answer = decode(body).unwrap();
        match check_login(answer.clone()) {
            Err(Error::Shape(path, json)) => {
                assert_eq!(path, "login.result");
                assert_eq!(json, answer);
            }
            other => panic!("{} gave {:?}", body, other),
        }
    }
}

#[test]
fn login_runs_a_token_call_then_posts_the_credentials() {
    let mut session = wiki();
    let mut call = match session.login(LoginEvent::Begin) {
        Some(LoginAction::Run(call)) => call,
        other => panic!("unexpected {:?}", other),
    };
    assert_eq!(session.stage(), LoginStage::AwaitingToken);
    let out = sent_by(&mut call, &mut session);
    assert_eq!(out.method, Method::Get);
    assert_eq!(
        out.args,
        vec![
            pair("format", "json"),
            pair("action", "query"),
            pair("meta", "tokens"),
            pair("type", "login")
        ]
    );
    let answer = match call.step(
        &mut session,
        Event::Replied(ok_reply(
            &["wiki_session=s1"],
            "{\"query\":{\"tokens\":{\"logintoken\":\"lt+\\\\\"}}}",
        )),
    ) {
        Some(Action::Done(result)) => result,
        other => panic!("unexpected {:?}", other),
    };
    let mut call = match session.login(LoginEvent::Answer(answer)) {
        Some(LoginAction::Run(call)) => call,
        other => panic!("unexpected {:?}", other),
    };
    assert_eq!(session.stage(), LoginStage::AwaitingResult);
    let out = sent_by(&mut call, &mut session);
    assert_eq!(out.method, Method::Post);
    assert_eq!(out.encoding, Encoding::Form);
    assert_eq!(out.cookie, "wiki_session=s1");
    assert_eq!(
        out.args,
        vec![
            pair("format", "json"),
            pair("action", "login"),
            pair("lgname", "user"),
            pair("lgpassword", "secret"),
            pair("lgtoken", "lt+\\")
        ]
    );
    let answer = match call.step(
        &mut session,
        Event::Replied(ok_reply(&["wikiUserID=7"], "{\"login\":{\"result\":\"Success\"}}")),
    ) {
        Some(Action::Done(result)) => result,
        other => panic!("unexpected {:?}", other),
    };
    assert_eq!(call.phase(), Phase::Success);
    match session.login(LoginEvent::Answer(answer)) {
        Some(LoginAction::Done(Ok(()))) => {}
        other => panic!("unexpected {:?}", other),
    }
    assert_eq!(session.stage(), LoginStage::LoggedIn);
}

#[test]
fn login_fails_with_the_body_of_a_refusal() {
    let mut session = wiki();
    session.login(LoginEvent::Begin);
    let token = decode("{\"query\":{\"tokens\":{\"logintoken\":\"t\"}}}").unwrap();
    assert!(matches!(
        session.login(LoginEvent::Answer(Ok(token))),
        Some(LoginAction::Run(_))
    ));
    let refusal = decode("{\"login\":{\"result\":\"Failed\",\"reason\":\"wrong password\"}}").unwrap();
    match session.login(LoginEvent::Answer(Ok(refusal.clone()))) {
        Some(LoginAction::Done(Err(Error::Json(json)))) => assert_eq!(json, refusal),
        other => panic!("unexpected {:?}", other),
    }
    assert_eq!(session.stage(), LoginStage::Failed);
}

#[test]
fn login_fails_with_the_error_of_a_failed_call() {
    let mut session = wiki();
    session.login(LoginEvent::Begin);
    let body = decode("{\"error\":{\"code\":\"x\"}}").unwrap();
    match session.login(LoginEvent::Answer(Err(Error::Json(body.clone())))) {
        Some(LoginAction::Done(Err(Error::Json(json)))) => assert_eq!(json, body),
        other => panic!("unexpected {:?}", other),
    }
    assert_eq!(session.stage(), LoginStage::Failed);

    let mut session = wiki();
    session.login(LoginEvent::Begin);
    let token = decode("{\"query\":{\"tokens\":{\"logintoken\":\"t\"}}}").unwrap();
    session.login(LoginEvent::Answer(Ok(token)));
    match session.login(LoginEvent::Answer(Err(Error::Transport("gone".to_string())))) {
        Some(LoginAction::Done(Err(Error::Transport(why)))) => assert_eq!(why, "gone"),
        other => panic!("unexpected {:?}", other),
    }
    assert_eq!(session.stage(), LoginStage::Failed);
}

#[test]
fn login_fails_without_a_token() {
    let mut session = wiki();
    session.login(LoginEvent::Begin);
    let answer = decode("{\"query\":{\"tokens\":{}}}").unwrap();
    match session.login(LoginEvent::Answer(Ok(answer.clone()))) {
        Some(LoginAction::Done(Err(Error::Shape(path, json)))) => {
            assert_eq!(path, "query.tokens.logintoken");
            assert_eq!(json, answer);
        }
        other => panic!("unexpected {:?}", other),
    }
    assert_eq!(session.stage(), LoginStage::Failed);
}

#[test]
fn login_ignores_events_out_of_turn() {
    let mut session = wiki();
    assert!(session.login(LoginEvent::Answer(Ok(Json::Null))).is_none());
    assert_eq!(session.stage(), LoginStage::Anonymous);
    session.login(LoginEvent::Begin);
    assert!(session.login(LoginEvent::Begin).is_none());
    assert_eq!(session.stage(), LoginStage::AwaitingToken);
}

#[test]
fn a_failed_login_can_be_started_again() {
    let mut session = wiki();
    session.login(LoginEvent::Begin);
    session.login(LoginEvent::Answer(Err(Error::Transport("x".to_string()))));
    assert_eq!(session.stage(), LoginStage::Failed);
    assert!(matches!(session.login(LoginEvent::Begin), Some(LoginAction::Run(_))));
    assert_eq!(session.stage(), LoginStage::AwaitingToken);
}

#[test]
fn login_config_starts_the_login() {
    let (session, action) = Mediawiki::login_config(config("user", "secret"));
    assert_eq!(session.stage(), LoginStage::AwaitingToken);
    match action {
        LoginAction::Run(call) => {
            assert_eq!(call.encoding(), Encoding::Query);
            assert_eq!(call.phase(), Phase::Building);
        }
        other => panic!("unexpected {:?}", other),
    }
    assert_eq!(session.config().username, "user");
}

#[test]
fn login_config_without_credentials_stays_anonymous() {
    let (session, action) = Mediawiki::login_config(config("", ""));
    assert_eq!(session.stage(), LoginStage::Anonymous);
    assert!(matches!(action, LoginAction::Done(Ok(()))));
}
