//! The session: who the client is, where the server is, and the cookies
//! that the server has set so far.

use crate::cookies::{
    absorb, cookie_header, header_text, jar_contents, jar_new, jar_pairs, merged,
};
use crate::error::Error;
use crate::exchange::{envelope, reports_failure, Encoding, Outgoing, Reply, Verdict};
use crate::json::{decode, Json};
use crate::request::{distinct_keys, pair_views, pairs_map, RequestBuilder};
use cookie::CookieJar;
use vstd::prelude::*;

verus! {

/// What a session is made from.
#[derive(Debug)]
pub struct Config {
    /// The value of the `User-Agent` header of every request.
    pub useragent: String,
    /// The account's name; empty for an anonymous session.
    pub username: String,
    /// The account's password; empty for an anonymous session.
    pub password: String,
    /// The URL of the endpoint.
    pub baseapi: String,
}

impl Clone for Config {
    fn clone(&self) -> (copy: Config)
        ensures
            copy == *self,
    {
        Config {
            useragent: self.useragent.clone(),
            username: self.username.clone(),
            password: self.password.clone(),
            baseapi: self.baseapi.clone(),
        }
    }
}

impl Config {
    /// Whether the configuration names no account: both the name and the
    /// password are empty.
    pub open spec fn spec_is_anonymous(&self) -> bool {
        self.username@.len() == 0 && self.password@.len() == 0
    }

    /// Whether the configuration names no account.
    #[verifier::when_used_as_spec(spec_is_anonymous)]
    pub fn is_anonymous(&self) -> (anonymous: bool)
        ensures
            anonymous == self.spec_is_anonymous(),
    {
        self.username.as_str().is_empty() && self.password.as_str().is_empty()
    }
}

/// How far the session is with logging in.
#[derive(Debug, Clone, Copy, PartialEq, Eq, Structural)]
pub enum LoginStage {
    /// No login was asked for.
    Anonymous,
    /// The login token was asked for.
    AwaitingToken,
    /// The credentials were sent.
    AwaitingResult,
    /// The server accepted the credentials.
    LoggedIn,
    /// The login failed.
    Failed,
}

/// A session with one server. It owns the cookie jar; only the handling of
/// a reply changes it.
pub struct Mediawiki {
    cookies: CookieJar,
    config: Config,
    stage: LoginStage,
}

impl Mediawiki {
    /// The cookies of the session: value by name.
    pub closed spec fn cookies(&self) -> Map<Seq<char>, Seq<char>> {
        jar_contents(self.cookies)
    }

    /// The configuration that the session was made from.
    pub closed spec fn spec_config(&self) -> &Config {
        &self.config
    }

    /// How far the session is with logging in.
    pub closed spec fn spec_stage(&self) -> LoginStage {
        self.stage
    }

    /// A session without cookies, not logged in.
    pub fn new(config: Config) -> (session: Mediawiki)
        ensures
            session.cookies() == Map::<Seq<char>, Seq<char>>::empty(),
            *session.spec_config() == config,
            session.spec_stage() == LoginStage::Anonymous,
    {
        Mediawiki { cookies: jar_new(), config, stage: LoginStage::Anonymous }
    }

    /// How far the session is with logging in.
    #[verifier::when_used_as_spec(spec_stage)]
    pub fn stage(&self) -> (stage: LoginStage)
        ensures
            stage == self.spec_stage(),
    {
        self.stage
    }

    /// Records how far the login is.
    pub(crate) fn set_stage(&mut self, stage: LoginStage)
        ensures
            final(self).spec_stage() == stage,
            final(self).spec_config() == old(self).spec_config(),
            final(self).cookies() == old(self).cookies(),
    {
        self.stage = stage;
    }

    /// The configuration that the session was made from.
    #[verifier::when_used_as_spec(spec_config)]
    pub fn config(&self) -> (config: &Config)
        ensures
            config == self.spec_config(),
    {
        &self.config
    }

    /// The arguments that every call of this session starts from.
    pub fn request(&self) -> (request: RequestBuilder)
        ensures
            request@ == RequestBuilder::seed(),
    {
        RequestBuilder::new()
    }

    /// Whether `out` is the request that this session sends for the given
    /// arguments: to the session's endpoint, under its user agent, with a
    /// `Cookie` header that lists the session's cookies, each once, in some
    /// order.
    pub open spec fn describes(
        &self,
        out: Outgoing,
        pairs: Seq<(Seq<char>, Seq<char>)>,
        encoding: Encoding,
    ) -> bool {
        &&& out.method == encoding.method()
        &&& out.encoding == encoding
        &&& out.url@ == self.spec_config().baseapi@
        &&& out.user_agent@ == self.spec_config().useragent@
        &&& pair_views(out.args@) == pairs
        &&& exists|jar: Seq<(Seq<char>, Seq<char>)>|
            #![auto]
            distinct_keys(jar) && pairs_map(jar) == self.cookies() && out.cookie@ == header_text(
                jar,
            )
    }

    /// Builds the request for one attempt of a call.
    pub fn prepare(&self, request: &RequestBuilder, encoding: Encoding) -> (out: Outgoing)
        ensures
            self.describes(out, request.pairs(), encoding),
    {
        let jar = jar_pairs(&self.cookies);
        let cookie = cookie_header(&jar);
        let list = request.args();
        let mut args: Vec<(String, String)> = Vec::new();
        let mut i: usize = 0;
        while i < list.len()
            invariant
                i <= list.len(),
                args@.len() == i,
                forall|k: int| 0 <= k < i ==> args@[k] == list@[k],
            decreases list.len() - i,
        {
            args.push((list[i].0.clone(), list[i].1.clone()));
            i += 1;
        }
        assert(pair_views(args@) =~= pair_views(list@));
        let out = Outgoing {
            method: encoding.method(),
            url: self.config.baseapi.clone(),
            user_agent: self.config.useragent.clone(),
            cookie,
            encoding,
            args,
        };
        assert(distinct_keys(pair_views(jar@)) && pairs_map(pair_views(jar@)) == self.cookies()
            && out.cookie@ == header_text(pair_views(jar@)));
        out
    }

    /// Takes in the reply to one attempt: merges its cookies into the
    /// session, then judges its status and its body.
    pub fn receive(&mut self, reply: &Reply) -> (outcome: Result<Json, Error>)
        ensures
            final(self).spec_config() == old(self).spec_config(),
            final(self).spec_stage() == old(self).spec_stage(),
            final(self).cookies() == merged(old(self).cookies(), reply.cookie_texts()),
            outcome matches Ok(json) ==> !reports_failure(json@),
            match reply.verdict() {
                Verdict::BadCookie => outcome matches Err(Error::Cookie(_)),
                Verdict::Refused => outcome matches Err(Error::Status(line)) && line@
                    == reply.status_line@,
                Verdict::BadBody => outcome matches Err(Error::Parse(_)),
                Verdict::Failure(answer) => outcome matches Err(Error::Json(json)) && json@
                    == answer,
                Verdict::Success(answer) => outcome matches Ok(json) && json@ == answer,
            },
    {
        match absorb(&mut self.cookies, &reply.set_cookies) {
            Err(e) => {
                return Err(Error::Cookie(e));
            },
            Ok(()) => {},
        }
        if !(200 <= reply.status && reply.status < 300) {
            return Err(Error::Status(reply.status_line.clone()));
        }
        match decode(reply.body.as_str()) {
            Err(e) => Err(Error::Parse(e)),
            Ok(answer) => envelope(answer),
        }
    }
}

} // verus!
