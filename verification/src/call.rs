//! One logical call: the attempts it takes and how it ends.
//!
//! A call is a small state machine. The transport drives it: it hands the
//! machine an [`Event`], does what the returned [`Action`] says, and comes
//! back with the next event. The machine decides what is sent, what is
//! tried again and what the caller gets to see.

use crate::cookies::merged;
use crate::error::Error;
use crate::exchange::{reports_failure, Encoding, Outgoing, Reply, Verdict};
use crate::json::Json;
use crate::request::RequestBuilder;
use crate::session::Mediawiki;
use vstd::prelude::*;

verus! {

/// Where a call stands.
#[derive(Debug, Clone, Copy, PartialEq, Eq, Structural)]
pub enum Phase {
    /// Nothing was sent yet.
    Building,
    /// An attempt is under way.
    Sending,
    /// The last attempt failed; the next one waits for the delay to pass.
    Retrying,
    /// The server answered, and the answer reports no failure.
    Success,
    /// The server answered, and the answer reports a failure.
    ApiError,
    /// The call was given up.
    Fatal,
}

/// How failed attempts are tried again.
#[derive(Debug, Clone, Copy)]
pub struct RetryPolicy {
    /// The seconds to wait before the next attempt.
    pub delay_secs: u64,
    /// After how many attempts a call is given up; `None` for never.
    pub max_attempts: Option<u32>,
}

impl RetryPolicy {
    /// Five seconds between attempts, and no end to them.
    pub fn forever() -> (policy: RetryPolicy)
        ensures
            policy.delay_secs == 5,
            policy.max_attempts is None,
    {
        RetryPolicy { delay_secs: 5, max_attempts: None }
    }

    /// Whether a call that has made `attempts` attempts makes no more.
    pub open spec fn gives_up(self, attempts: nat) -> bool {
        self.max_attempts matches Some(most) && attempts >= most
    }
}

/// What the transport reports to a call.
#[derive(Debug)]
pub enum Event {
    /// The call may start.
    Ready,
    /// The delay has passed.
    Waited,
    /// The attempt did not complete: nothing usable came back. Holds the
    /// transport's description.
    Failed(String),
    /// The attempt completed with this reply.
    Replied(Reply),
}

/// What a call asks of the transport.
#[derive(Debug)]
pub enum Action {
    /// Send this request and report how it went.
    Send(Outgoing),
    /// The attempt failed for the given reason: wait this many seconds,
    /// then report that.
    Wait(u64, Error),
    /// The call is over; this is its result.
    Done(Result<Json, Error>),
}

/// The part of the world that a call's steps change: the call's phase and
/// count of attempts, and the session's cookies.
pub struct Progress {
    pub phase: Phase,
    pub attempts: nat,
    pub cookies: Map<Seq<char>, Seq<char>>,
}

/// Whether an event is one that a call in `phase` waits for.
pub open spec fn expected(phase: Phase, event: Event) -> bool {
    match (phase, event) {
        (Phase::Building, Event::Ready) => true,
        (Phase::Retrying, Event::Waited) => true,
        (Phase::Sending, Event::Failed(_)) => true,
        (Phase::Sending, Event::Replied(_)) => true,
        _ => false,
    }
}

/// The count of attempts after one more; it stops at the largest `u32`.
pub open spec fn one_more(attempts: nat) -> nat {
    if attempts < u32::MAX {
        attempts + 1
    } else {
        attempts
    }
}

/// The transition function of a call. An event that is not expected
/// changes nothing.
pub open spec fn advance(policy: RetryPolicy, now: Progress, event: Event) -> Progress {
    match (now.phase, event) {
        (Phase::Building, Event::Ready) | (Phase::Retrying, Event::Waited) => Progress {
            phase: Phase::Sending,
            attempts: one_more(now.attempts),
            cookies: now.cookies,
        },
        (Phase::Sending, Event::Failed(_)) => Progress {
            phase: if policy.gives_up(now.attempts) {
                Phase::Fatal
            } else {
                Phase::Retrying
            },
            attempts: now.attempts,
            cookies: now.cookies,
        },
        (Phase::Sending, Event::Replied(reply)) => Progress {
            phase: match reply.verdict() {
                Verdict::BadCookie => Phase::Fatal,
                Verdict::Refused => if policy.gives_up(now.attempts) {
                    Phase::Fatal
                } else {
                    Phase::Retrying
                },
                Verdict::BadBody => Phase::Fatal,
                Verdict::Failure(_) => Phase::ApiError,
                Verdict::Success(_) => Phase::Success,
            },
            attempts: now.attempts,
            cookies: merged(now.cookies, reply.cookie_texts()),
        },
        _ => now,
    }
}

/// One logical call.
#[derive(Debug)]
pub struct Call {
    request: RequestBuilder,
    encoding: Encoding,
    policy: RetryPolicy,
    phase: Phase,
    attempts: u32,
}

impl Call {
    /// The arguments of the call, in the order in which they go out.
    pub closed spec fn pairs(&self) -> Seq<(Seq<char>, Seq<char>)> {
        self.request.pairs()
    }

    /// The arguments of the call.
    pub closed spec fn args(&self) -> Map<Seq<char>, Seq<char>> {
        self.request@
    }

    /// How the arguments travel.
    pub closed spec fn spec_encoding(&self) -> Encoding {
        self.encoding
    }

    /// How failed attempts are tried again.
    pub closed spec fn policy(&self) -> RetryPolicy {
        self.policy
    }

    /// Where the call stands.
    pub closed spec fn spec_phase(&self) -> Phase {
        self.phase
    }

    /// How many attempts were started.
    pub closed spec fn spec_attempts(&self) -> nat {
        self.attempts as nat
    }

    /// The call's phase and attempts, with the cookies of `session`.
    pub open spec fn progress(&self, session: &Mediawiki) -> Progress {
        Progress {
            phase: self.spec_phase(),
            attempts: self.spec_attempts(),
            cookies: session.cookies(),
        }
    }

    /// Whether this is a call that has not started, sends `args` in the
    /// given encoding, and tries again every five seconds without end.
    pub open spec fn fresh(&self, args: Map<Seq<char>, Seq<char>>, encoding: Encoding) -> bool {
        &&& self.args() == args
        &&& self.spec_encoding() == encoding
        &&& self.spec_phase() == Phase::Building
        &&& self.spec_attempts() == 0
        &&& self.policy().delay_secs == 5
        &&& self.policy().max_attempts is None
    }

    /// A call that has not started.
    pub fn new(request: RequestBuilder, encoding: Encoding, policy: RetryPolicy) -> (call: Call)
        ensures
            call.pairs() == request.pairs(),
            call.args() == request@,
            call.spec_encoding() == encoding,
            call.policy() == policy,
            call.spec_phase() == Phase::Building,
            call.spec_attempts() == 0,
    {
        Call { request, encoding, policy, phase: Phase::Building, attempts: 0 }
    }

    /// How the arguments travel.
    #[verifier::when_used_as_spec(spec_encoding)]
    pub fn encoding(&self) -> (encoding: Encoding)
        ensures
            encoding == self.spec_encoding(),
    {
        self.encoding
    }

    /// Where the call stands.
    #[verifier::when_used_as_spec(spec_phase)]
    pub fn phase(&self) -> (phase: Phase)
        ensures
            phase == self.spec_phase(),
    {
        self.phase
    }

    /// How many attempts were started.
    pub fn attempts(&self) -> (attempts: u32)
        ensures
            attempts == self.spec_attempts(),
    {
        self.attempts
    }

    /// Takes one event and says what to do next.
    ///
    /// The call and the session move as [`advance`] says. An event that the
    /// call does not wait for is answered with `None`. A start and the end
    /// of a delay are answered with the request to send. An attempt that did
    /// not complete, or that came back with a status other than success, is
    /// answered with the delay to wait and the failure, for the record, or,
    /// where the policy gives up, with the failure as the call's result. Every other reply ends the call: with
    /// the decoded answer, or with the error that says why there is none.
    pub fn step(&mut self, session: &mut Mediawiki, event: Event) -> (action: Option<Action>)
        ensures
            final(self).pairs() == old(self).pairs(),
            final(self).args() == old(self).args(),
            final(self).spec_encoding() == old(self).spec_encoding(),
            final(self).policy() == old(self).policy(),
            final(session).spec_config() == old(session).spec_config(),
            final(session).spec_stage() == old(session).spec_stage(),
            final(self).progress(final(session)) == advance(
                old(self).policy(),
                old(self).progress(old(session)),
                event,
            ),
            action is Some <==> expected(old(self).spec_phase(), event),
            match action {
                None => true,
                Some(Action::Send(out)) => {
                    &&& final(self).spec_phase() == Phase::Sending
                    &&& final(session).describes(
                        out,
                        final(self).pairs(),
                        final(self).spec_encoding(),
                    )
                },
                Some(Action::Wait(seconds, cause)) => {
                    &&& final(self).spec_phase() == Phase::Retrying
                    &&& seconds == old(self).policy().delay_secs
                    &&& match event {
                        Event::Failed(why) => cause matches Error::Transport(text) && text@
                            == why@,
                        Event::Replied(reply) => cause matches Error::Status(line) && line@
                            == reply.status_line@,
                        _ => false,
                    }
                },
                Some(Action::Done(Ok(json))) => {
                    &&& final(self).spec_phase() == Phase::Success
                    &&& event matches Event::Replied(reply)
                    &&& reply.verdict() == Verdict::Success(json@)
                    &&& !reports_failure(json@)
                },
                Some(Action::Done(Err(e))) => {
                    &&& final(self).spec_phase() == Phase::ApiError || final(self).spec_phase()
                        == Phase::Fatal
                    &&& match event {
                        Event::Failed(why) => e matches Error::Transport(text) && text@ == why@,
                        Event::Replied(reply) => match reply.verdict() {
                            Verdict::BadCookie => e is Cookie,
                            Verdict::Refused => e matches Error::Status(line) && line@
                                == reply.status_line@,
                            Verdict::BadBody => e is Parse,
                            Verdict::Failure(answer) => e matches Error::Json(json) && json@
                                == answer,
                            Verdict::Success(_) => false,
                        },
                        _ => false,
                    }
                },
            },
    {
        match event {
            Event::Ready => {
                match self.phase {
                    Phase::Building => Some(self.send(session)),
                    _ => None,
                }
            },
            Event::Waited => {
                match self.phase {
                    Phase::Retrying => Some(self.send(session)),
                    _ => None,
                }
            },
            Event::Failed(why) => {
                match self.phase {
                    Phase::Sending => Some(self.give_up_or_wait(Error::Transport(why))),
                    _ => None,
                }
            },
            Event::Replied(reply) => {
                match self.phase {
                    Phase::Sending => {
                        match session.receive(&reply) {
                            Ok(json) => {
                                self.phase = Phase::Success;
                                Some(Action::Done(Ok(json)))
                            },
                            Err(Error::Status(line)) => Some(
                                self.give_up_or_wait(Error::Status(line)),
                            ),
                            Err(Error::Json(json)) => {
                                self.phase = Phase::ApiError;
                                Some(Action::Done(Err(Error::Json(json))))
                            },
                            Err(e) => {
                                self.phase = Phase::Fatal;
                                Some(Action::Done(Err(e)))
                            },
                        }
                    },
                    _ => None,
                }
            },
        }
    }

    /// Starts an attempt.
    fn send(&mut self, session: &Mediawiki) -> (action: Action)
        ensures
            final(self).pairs() == old(self).pairs(),
            final(self).args() == old(self).args(),
            final(self).spec_encoding() == old(self).spec_encoding(),
            final(self).policy() == old(self).policy(),
            final(self).spec_phase() == Phase::Sending,
            final(self).spec_attempts() == one_more(old(self).spec_attempts()),
            action matches Action::Send(out) && session.describes(
                out,
                final(self).pairs(),
                final(self).spec_encoding(),
            ),
    {
        let out = session.prepare(&self.request, self.encoding);
        self.phase = Phase::Sending;
        if self.attempts < u32::MAX {
            self.attempts = self.attempts + 1;
        }
        Action::Send(out)
    }

    /// Ends an attempt that may be tried again.
    fn give_up_or_wait(&mut self, cause: Error) -> (action: Action)
        ensures
            final(self).pairs() == old(self).pairs(),
            final(self).args() == old(self).args(),
            final(self).spec_encoding() == old(self).spec_encoding(),
            final(self).policy() == old(self).policy(),
            final(self).spec_attempts() == old(self).spec_attempts(),
            old(self).policy().gives_up(old(self).spec_attempts()) ==> final(self).spec_phase()
                == Phase::Fatal && action == Action::Done(Err(cause)),
            !old(self).policy().gives_up(old(self).spec_attempts()) ==> final(self).spec_phase()
                == Phase::Retrying && action == Action::Wait(old(self).policy().delay_secs, cause),
    {
        let last = match self.policy.max_attempts {
            Some(most) => self.attempts >= most,
            None => false,
        };
        if last {
            self.phase = Phase::Fatal;
            Action::Done(Err(cause))
        } else {
            self.phase = Phase::Retrying;
            Action::Wait(self.policy.delay_secs, cause)
        }
    }
}

impl RequestBuilder {
    /// A call that sends these arguments in the query string of a GET, and
    /// tries again without end.
    pub fn get(&self) -> (call: Call)
        ensures
            call.pairs() == self.pairs(),
            call.fresh(self@, Encoding::Query),
    {
        Call::new(self.clone(), Encoding::Query, RetryPolicy::forever())
    }

    /// A call that sends these arguments as the form body of a POST, and
    /// tries again without end.
    pub fn post(&self) -> (call: Call)
        ensures
            call.pairs() == self.pairs(),
            call.fresh(self@, Encoding::Form),
    {
        Call::new(self.clone(), Encoding::Form, RetryPolicy::forever())
    }

    /// A call that sends these arguments as the text parts of a multipart
    /// POST, and tries again without end.
    pub fn multipart(&self) -> (call: Call)
        ensures
            call.pairs() == self.pairs(),
            call.fresh(self@, Encoding::Multipart),
    {
        Call::new(self.clone(), Encoding::Multipart, RetryPolicy::forever())
    }
}

/// A call that ends in success hands out an answer without an `error`
/// field at its top: a reply whose body has one is never a success.
pub proof fn lemma_success_reports_no_failure(policy: RetryPolicy, now: Progress, reply: Reply)
    requires
        now.phase == Phase::Sending,
    ensures
        advance(policy, now, Event::Replied(reply)).phase == Phase::Success <==> (
        reply.verdict() matches Verdict::Success(answer) && !reports_failure(answer)),
        advance(policy, now, Event::Replied(reply)).phase == Phase::ApiError <==> (
        reply.verdict() matches Verdict::Failure(answer) && reports_failure(answer)),
{
}

/// An attempt that did not complete leaves no trace: the cookies stay as
/// they were, and where the next attempt completes, the call ends as that
/// attempt alone decides, with the cookies of that attempt's reply merged
/// once.
pub proof fn lemma_failed_attempt_leaves_no_trace(
    policy: RetryPolicy,
    now: Progress,
    why: String,
    reply: Reply,
)
    requires
        now.phase == Phase::Sending,
        !policy.gives_up(now.attempts),
    ensures
        advance(policy, now, Event::Failed(why)).cookies == now.cookies,
        advance(policy, now, Event::Failed(why)).phase == Phase::Retrying,
        ({
            let failed = advance(policy, now, Event::Failed(why));
            let again = advance(policy, failed, Event::Waited);
            let ended = advance(policy, again, Event::Replied(reply));
            &&& again.phase == Phase::Sending
            &&& again.cookies == now.cookies
            &&& ended.cookies == merged(now.cookies, reply.cookie_texts())
            &&& ended.cookies == advance(policy, now, Event::Replied(reply)).cookies
            &&& reply.verdict() is Success ==> ended.phase == Phase::Success
            &&& !(reply.verdict() is Refused) ==> ended.phase == advance(
                policy,
                now,
                Event::Replied(reply),
            ).phase
        }),
{
}

/// Only a failure of the transport and a status other than success are
/// tried again. A malformed cookie, a body that is not JSON and an answer
/// that reports a failure end the call at once.
pub proof fn lemma_only_transient_failures_retry(policy: RetryPolicy, now: Progress, event: Event)
    ensures
        advance(policy, now, event).phase == Phase::Retrying && now.phase != Phase::Retrying ==> {
            &&& now.phase == Phase::Sending
            &&& !policy.gives_up(now.attempts)
            &&& event is Failed || (event matches Event::Replied(reply) && reply.verdict()
                is Refused)
        },
{
}

/// A call that is over stays over: no event moves it, and none changes the
/// cookies through it.
pub proof fn lemma_ended_call_stays(policy: RetryPolicy, now: Progress, event: Event)
    requires
        now.phase == Phase::Success || now.phase == Phase::ApiError || now.phase == Phase::Fatal,
    ensures
        advance(policy, now, event) == now,
        !expected(now.phase, event),
{
}

/// With the policy that never gives up, no failure of the transport and no
/// status ever ends a call.
pub proof fn lemma_forever_never_gives_up(policy: RetryPolicy, now: Progress, event: Event)
    requires
        policy.max_attempts is None,
        event is Failed || (event matches Event::Replied(reply) && reply.verdict() is Refused),
    ensures
        advance(policy, now, event).phase != Phase::Fatal || now.phase == Phase::Fatal,
{
}

} // verus!
