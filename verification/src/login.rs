//! Fetching capability tokens, and logging in.
//!
//! Logging in takes two calls: one for a login token, one that sends the
//! credentials with it. The session keeps the stage; the transport runs the
//! calls and reports their results.

use crate::call::Call;
use crate::error::Error;
use crate::exchange::Encoding;
use crate::json::{field_of, text_of, Json, JsonValue};
use crate::request::RequestBuilder;
use crate::session::{Config, LoginStage, Mediawiki};
use crate::text::str_eq;
use crate::token::{Login, Token, TokenType};
use vstd::prelude::*;
use vstd::string::StringExecFns;

verus! {

/// The arguments that ask for a token under the name `kind`.
pub open spec fn token_args(kind: Seq<char>) -> Map<Seq<char>, Seq<char>> {
    RequestBuilder::seed().insert("action"@, "query"@).insert("meta"@, "tokens"@).insert(
        "type"@,
        kind,
    )
}

/// The token that an answer hands out in the field `field`: the string at
/// `query.tokens.<field>`.
pub open spec fn token_text(answer: JsonValue, field: Seq<char>) -> Option<Seq<char>> {
    text_of(field_of(field_of(answer.field("query"@), "tokens"@), field))
}

/// The arguments that log in the account of `config` with a login token.
pub open spec fn login_args(config: &Config, token: Seq<char>) -> Map<Seq<char>, Seq<char>> {
    RequestBuilder::seed().insert("action"@, "login"@).insert("lgname"@, config.username@).insert(
        "lgpassword"@,
        config.password@,
    ).insert("lgtoken"@, token)
}

/// The result that an answer to a login reports: the string at
/// `login.result`.
pub open spec fn login_result(answer: JsonValue) -> Option<Seq<char>> {
    text_of(field_of(answer.field("login"@), "result"@))
}

/// Judges the answer to a login. `Success` is the one result that logs in;
/// any other result is a failure of the call and comes back with the whole
/// answer. An answer without a result is of the wrong shape.
pub fn check_login(answer: Json) -> (outcome: Result<(), Error>)
    ensures
        match login_result(answer@) {
            Some(result) => if result == "Success"@ {
                outcome is Ok
            } else {
                outcome matches Err(e) && e == Error::Json(answer)
            },
            None => outcome matches Err(Error::Shape(path, json)) && path@ == "login.result"@
                && json == answer,
        },
{
    let accepted = match answer.get("login") {
        Some(inner) => match inner.get("result") {
            Some(result) => match result.as_str() {
                Some(text) => Some(str_eq(text, "Success")),
                None => None,
            },
            None => None,
        },
        None => None,
    };
    match accepted {
        Some(true) => Ok(()),
        Some(false) => Err(Error::Json(answer)),
        None => Err(Error::Shape("login.result".to_owned(), answer)),
    }
}

/// What the transport reports to a login.
#[derive(Debug)]
pub enum LoginEvent {
    /// Log in.
    Begin,
    /// The call that the login asked for has ended with this result.
    Answer(Result<Json, Error>),
}

/// What a login asks of the transport.
#[derive(Debug)]
pub enum LoginAction {
    /// Run this call and report its result.
    Run(Call),
    /// The login is over; this is its result.
    Done(Result<(), Error>),
}

/// The stage after `event`, for a session of the given configuration. An
/// event that the stage does not wait for changes nothing.
pub open spec fn login_next(stage: LoginStage, event: LoginEvent) -> LoginStage {
    match (stage, event) {
        (LoginStage::AwaitingToken, LoginEvent::Begin) => stage,
        (LoginStage::AwaitingResult, LoginEvent::Begin) => stage,
        (_, LoginEvent::Begin) => LoginStage::AwaitingToken,
        (LoginStage::AwaitingToken, LoginEvent::Answer(Ok(answer))) => if token_text(
            answer@,
            Login::out_name(),
        ) is Some {
            LoginStage::AwaitingResult
        } else {
            LoginStage::Failed
        },
        (LoginStage::AwaitingToken, LoginEvent::Answer(Err(_))) => LoginStage::Failed,
        (LoginStage::AwaitingResult, LoginEvent::Answer(Ok(answer))) => if login_result(answer@)
            == Some("Success"@) {
            LoginStage::LoggedIn
        } else {
            LoginStage::Failed
        },
        (LoginStage::AwaitingResult, LoginEvent::Answer(Err(_))) => LoginStage::Failed,
        (_, LoginEvent::Answer(_)) => stage,
    }
}

/// Whether an event is one that a login in `stage` waits for.
pub open spec fn login_expects(stage: LoginStage, event: LoginEvent) -> bool {
    match event {
        LoginEvent::Begin => stage != LoginStage::AwaitingToken && stage
            != LoginStage::AwaitingResult,
        LoginEvent::Answer(_) => stage == LoginStage::AwaitingToken || stage
            == LoginStage::AwaitingResult,
    }
}

impl Mediawiki {
    /// The arguments that ask for a token of kind `T`.
    pub fn token_request<T: TokenType>(&self) -> (request: RequestBuilder)
        ensures
            request@ == token_args(T::in_name()),
    {
        let mut request = self.request();
        request.arg("action", "query").arg("meta", "tokens").arg("type", T::in_type());
        request
    }

    /// Takes the token of kind `T` out of the answer to a
    /// [`Mediawiki::token_request`]. Succeeds exactly where the answer
    /// holds a string at `query.tokens.<out_type>`.
    pub fn get_token<T: TokenType>(&self, answer: &Json) -> (outcome: Result<Token<T>, Error>)
        ensures
            match token_text(answer@, T::out_name()) {
                Some(text) => outcome matches Ok(token) && token@ == text,
                None => outcome matches Err(Error::Shape(path, json)) && path@ == "query.tokens."@
                    + T::out_name() && json@ == answer@,
            },
    {
        let found = match answer.get("query") {
            Some(query) => match query.get("tokens") {
                Some(tokens) => match tokens.get(T::out_type()) {
                    Some(value) => value.as_str(),
                    None => None,
                },
                None => None,
            },
            None => None,
        };
        match found {
            Some(text) => Ok(Token::new(text)),
            None => {
                let mut path = "query.tokens.".to_owned();
                path.append(T::out_type());
                Err(Error::Shape(path, answer.clone()))
            },
        }
    }

    /// The arguments that send the credentials with a login token.
    pub fn login_request(&self, token: &Token<Login>) -> (request: RequestBuilder)
        ensures
            request@ == login_args(self.spec_config(), token@),
    {
        let mut request = self.request();
        request.arg("action", "login").arg("lgname", self.config().username.as_str()).arg(
            "lgpassword",
            self.config().password.as_str(),
        ).arg("lgtoken", token.value());
        request
    }

    /// Takes one event of a login and says what to do next.
    ///
    /// `Begin` asks for a login token with a GET. The answer to that, where
    /// it holds the token, is followed by a POST of the credentials; the
    /// answer to the POST decides. A call that failed, an answer without a
    /// token and a result other than `Success` end the login with the
    /// error. An event that the stage does not wait for is answered with
    /// `None` and changes nothing.
    pub fn login(&mut self, event: LoginEvent) -> (action: Option<LoginAction>)
        ensures
            final(self).spec_config() == old(self).spec_config(),
            final(self).cookies() == old(self).cookies(),
            final(self).spec_stage() == login_next(old(self).spec_stage(), event),
            action is Some <==> login_expects(old(self).spec_stage(), event),
            match action {
                None => true,
                Some(LoginAction::Run(call)) => match final(self).spec_stage() {
                    LoginStage::AwaitingToken => call.fresh(
                        token_args(Login::in_name()),
                        Encoding::Query,
                    ),
                    LoginStage::AwaitingResult => {
                        &&& event matches LoginEvent::Answer(Ok(answer))
                        &&& token_text(answer@, Login::out_name()) matches Some(token)
                        &&& call.fresh(login_args(old(self).spec_config(), token), Encoding::Form)
                    },
                    _ => false,
                },
                Some(LoginAction::Done(Ok(()))) => {
                    &&& final(self).spec_stage() == LoginStage::LoggedIn
                    &&& old(self).spec_stage() == LoginStage::AwaitingResult
                },
                Some(LoginAction::Done(Err(e))) => {
                    &&& final(self).spec_stage() == LoginStage::Failed
                    &&& match event {
                        LoginEvent::Answer(Err(cause)) => e == cause,
                        LoginEvent::Answer(Ok(answer)) => match old(self).spec_stage() {
                            LoginStage::AwaitingToken => e matches Error::Shape(_, json) && json@
                                == answer@,
                            _ => match login_result(answer@) {
                                Some(_) => e == Error::Json(answer),
                                None => e matches Error::Shape(_, json) && json == answer,
                            },
                        },
                        LoginEvent::Begin => false,
                    }
                },
            },
    {
        let stage = self.stage();
        match event {
            LoginEvent::Begin => {
                match stage {
                    LoginStage::AwaitingToken => None,
                    LoginStage::AwaitingResult => None,
                    _ => {
                        let call = self.token_request::<Login>().get();
                        self.set_stage(LoginStage::AwaitingToken);
                        Some(LoginAction::Run(call))
                    },
                }
            },
            LoginEvent::Answer(result) => {
                match stage {
                    LoginStage::AwaitingToken => {
                        let fetched = match result {
                            Ok(answer) => self.get_token::<Login>(&answer),
                            Err(e) => Err(e),
                        };
                        match fetched {
                            Ok(token) => {
                                let call = self.login_request(&token).post();
                                self.set_stage(LoginStage::AwaitingResult);
                                Some(LoginAction::Run(call))
                            },
                            Err(e) => {
                                self.set_stage(LoginStage::Failed);
                                Some(LoginAction::Done(Err(e)))
                            },
                        }
                    },
                    LoginStage::AwaitingResult => {
                        let checked = match result {
                            Ok(answer) => check_login(answer),
                            Err(e) => Err(e),
                        };
                        match checked {
                            Ok(()) => {
                                self.set_stage(LoginStage::LoggedIn);
                                Some(LoginAction::Done(Ok(())))
                            },
                            Err(e) => {
                                self.set_stage(LoginStage::Failed);
                                Some(LoginAction::Done(Err(e)))
                            },
                        }
                    },
                    _ => None,
                }
            },
        }
    }

    /// Makes a session from a configuration and says how to log it in.
    ///
    /// The session starts without cookies. A configuration without
    /// credentials needs no login: the action is `Done`. Any other starts
    /// the login, as [`Mediawiki::login`] does on `Begin`.
    pub fn login_config(config: Config) -> (start: (Mediawiki, LoginAction))
        ensures
            *start.0.spec_config() == config,
            start.0.cookies() == Map::<Seq<char>, Seq<char>>::empty(),
            match start.1 {
                LoginAction::Done(result) => {
                    &&& config.is_anonymous()
                    &&& result is Ok
                    &&& start.0.spec_stage() == LoginStage::Anonymous
                },
                LoginAction::Run(call) => {
                    &&& !config.is_anonymous()
                    &&& start.0.spec_stage() == LoginStage::AwaitingToken
                    &&& call.fresh(token_args(Login::in_name()), Encoding::Query)
                },
            },
    {
        let mut session = Mediawiki::new(config);
        if session.config().is_anonymous() {
            (session, LoginAction::Done(Ok(())))
        } else {
            match session.login(LoginEvent::Begin) {
                Some(action) => (session, action),
                None => (session, LoginAction::Done(Ok(()))),
            }
        }
    }
}

} // verus!
