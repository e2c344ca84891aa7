//! The per-request protocol of the middleware: sign and send, and on an
//! authorization failure refresh the token, install it and retry once. A
//! request rejected after another request already replaced its token retries
//! with the token in force instead of refreshing again.
//!
//! `RequestCycle::advance` decides; whoever drives the cycle performs each
//! action (a network call, the token commit) and hands back what came of it.
use vstd::prelude::*;

use crate::middleware::{signs_with, OAuth2, RefreshData, SignedHeader};
use crate::refresh::RefreshResponse;

verus! {

/// Where one request stands in the protocol.
#[derive(Debug, Clone, Copy, PartialEq, Eq, Structural)]
pub enum Stage {
    /// Nothing sent yet.
    Start,
    /// The signed request is out.
    AwaitingResponse,
    /// The refresh request is out.
    AwaitingRefresh,
    /// The refreshed token waits to be installed.
    AwaitingCommit,
    /// The re-signed request is out.
    AwaitingRetry,
    /// The outcome has been decided.
    Done,
}

/// Why a network call of the cycle failed.
#[derive(Debug, Clone, Copy, PartialEq, Eq, Structural)]
pub enum FailureKind {
    /// The transport could not complete the call.
    Transport,
    /// The provider answered with something that is not the expected shape.
    Protocol,
}

/// What the driver reports back to the cycle.
#[derive(Debug, Clone)]
pub enum Event {
    /// The driver is ready to send the request.
    Begin,
    /// An answer with this status came back for the request.
    Response { status: u16 },
    /// The refresh endpoint answered with a well-formed response. One whose
    /// access token is empty fails the request as a protocol error: the
    /// token in force is never replaced by an empty one.
    Refreshed(RefreshResponse),
    /// The refreshed token has been installed.
    Committed,
    /// The last call failed.
    Failed(FailureKind),
}

/// What the cycle asks the driver to do next.
#[derive(Debug, Clone)]
pub enum Action {
    /// Sign the request with the current token (`RequestCycle::sign`) and
    /// send it.
    Send,
    /// Send the refresh request to the refresh endpoint.
    SendRefresh,
    /// Install this token, notify the observer, then report `Committed`.
    Commit(RefreshData),
    /// Hand the response just received, with this status, to the caller.
    Deliver { status: u16 },
    /// Fail the request with the error of the last call.
    Fail(FailureKind),
    /// The event does not belong to this stage: the driver is out of step.
    Reject,
}

/// The statuses that mean the provider refused the token.
pub open spec fn is_auth_failure(status: u16) -> bool {
    status == 400 || status == 401
}

/// The transition of the protocol: the next stage and the action to take,
/// for a request last signed with `signed` while `current` is the token in
/// force.
///
/// A rejected request whose token has already been replaced, by the refresh
/// of another request, is retried with the token in force rather than
/// refreshing again: concurrent rejections share one refresh.
pub open spec fn next(stage: Stage, signed: Seq<char>, current: Seq<char>, event: Event) -> (
    Stage,
    Action,
) {
    match (stage, event) {
        (Stage::Start, Event::Begin) => (Stage::AwaitingResponse, Action::Send),
        (Stage::AwaitingResponse, Event::Response { status }) => if !is_auth_failure(status) {
            (Stage::Done, Action::Deliver { status })
        } else if signed != current {
            (Stage::AwaitingRetry, Action::Send)
        } else {
            (Stage::AwaitingRefresh, Action::SendRefresh)
        },
        (Stage::AwaitingRefresh, Event::Refreshed(r)) => if r.access_token@.len() == 0 {
            (Stage::Done, Action::Fail(FailureKind::Protocol))
        } else {
            (Stage::AwaitingCommit, Action::Commit(RefreshData { access_token: r.access_token }))
        },
        (Stage::AwaitingCommit, Event::Committed) => (Stage::AwaitingRetry, Action::Send),
        (Stage::AwaitingRetry, Event::Response { status }) => (
            Stage::Done,
            Action::Deliver { status },
        ),
        (Stage::AwaitingResponse, Event::Failed(k)) => (Stage::Done, Action::Fail(k)),
        (Stage::AwaitingRefresh, Event::Failed(k)) => (Stage::Done, Action::Fail(k)),
        (Stage::AwaitingRetry, Event::Failed(k)) => (Stage::Done, Action::Fail(k)),
        _ => (stage, Action::Reject),
    }
}

/// Whether a response status means the provider refused the token.
pub fn is_authorization_failure(status: u16) -> (r: bool)
    ensures
        r == is_auth_failure(status),
{
    status == 400 || status == 401
}

/// The protocol state of one outbound request: its stage, and the token it
/// was last signed with.
#[derive(Debug, Clone)]
pub struct RequestCycle {
    pub stage: Stage,
    pub signed_with: String,
}

impl RequestCycle {
    /// A cycle for a request that has not been sent yet.
    pub fn new() -> (r: RequestCycle)
        ensures
            r.stage == Stage::Start,
            r.signed_with@ == Seq::<char>::empty(),
    {
        RequestCycle { stage: Stage::Start, signed_with: String::new() }
    }

    /// Signs the request with the token in force, for a `Send`, and records
    /// which token that was.
    pub fn sign(&mut self, auth: &OAuth2) -> (h: SignedHeader)
        ensures
            signs_with(h, auth.token_type, auth.access_token@),
            final(self).signed_with@ == auth.access_token@,
            final(self).stage == old(self).stage,
    {
        self.signed_with = auth.access_token.clone();
        auth.authorize()
    }

    /// Takes the driver's report of what happened and says what to do next;
    /// `current` is the middleware as it stands now.
    pub fn advance(&mut self, event: Event, current: &OAuth2) -> (a: Action)
        ensures
            (final(self).stage, a) == next(
                old(self).stage,
                old(self).signed_with@,
                current.access_token@,
                event,
            ),
            final(self).signed_with == old(self).signed_with,
    {
        let stage = self.stage;
        match event {
            Event::Begin => match stage {
                Stage::Start => {
                    self.stage = Stage::AwaitingResponse;
                    Action::Send
                },
                _ => Action::Reject,
            },
            Event::Response { status } => match stage {
                Stage::AwaitingResponse => {
                    if !is_authorization_failure(status) {
                        self.stage = Stage::Done;
                        Action::Deliver { status }
                    } else if !current.access_token.eq(&self.signed_with) {
                        self.stage = Stage::AwaitingRetry;
                        Action::Send
                    } else {
                        self.stage = Stage::AwaitingRefresh;
                        Action::SendRefresh
                    }
                },
                Stage::AwaitingRetry => {
                    self.stage = Stage::Done;
                    Action::Deliver { status }
                },
                _ => Action::Reject,
            },
            Event::Refreshed(r) => match stage {
                Stage::AwaitingRefresh => {
                    if r.access_token.as_str().is_empty() {
                        self.stage = Stage::Done;
                        Action::Fail(FailureKind::Protocol)
                    } else {
                        self.stage = Stage::AwaitingCommit;
                        Action::Commit(RefreshData { access_token: r.access_token })
                    }
                },
                _ => Action::Reject,
            },
            Event::Committed => match stage {
                Stage::AwaitingCommit => {
                    self.stage = Stage::AwaitingRetry;
                    Action::Send
                },
                _ => Action::Reject,
            },
            Event::Failed(k) => match stage {
                Stage::AwaitingResponse | Stage::AwaitingRefresh | Stage::AwaitingRetry => {
                    self.stage = Stage::Done;
                    Action::Fail(k)
                },
                _ => Action::Reject,
            },
        }
    }
}

/// A network call made by a run of the cycle.
pub enum Call {
    /// The request, signed with this access token.
    Signed(Seq<char>),
    /// The refresh request.
    Refresh,
}

/// What a run of the cycle came to: the shared access token after it, the
/// stage it stopped in, the calls it made in order, and its outcome.
pub struct Trace {
    pub token: Seq<char>,
    pub stage: Stage,
    pub calls: Seq<Call>,
    pub outcome: Option<Action>,
}

/// Whether an action settles the request.
pub open spec fn settles(a: Action) -> bool {
    a is Deliver || a is Fail
}

/// The calls that an action makes, when the token in force is `token`.
pub open spec fn calls_of(a: Action, token: Seq<char>) -> Seq<Call> {
    match a {
        Action::Send => seq![Call::Signed(token)],
        Action::SendRefresh => seq![Call::Refresh],
        _ => Seq::empty(),
    }
}

/// The token in force after an action: a commit installs its token.
pub open spec fn token_after(a: Action, token: Seq<char>) -> Seq<char> {
    match a {
        Action::Commit(d) => d.access_token@,
        _ => token,
    }
}

/// The token that the request was last signed with, after an action: a send
/// signs with the token in force.
pub open spec fn signed_after(a: Action, token: Seq<char>, signed: Seq<char>) -> Seq<char> {
    match a {
        Action::Send => token,
        _ => signed,
    }
}

/// A driver that performs every action of the cycle faithfully, on a token
/// cell that no other request writes, fed with `events` from `stage` on;
/// `signed` is the token the request was last signed with.
pub open spec fn drive(token: Seq<char>, signed: Seq<char>, stage: Stage, events: Seq<Event>) -> Trace
    decreases events.len(),
{
    if events.len() == 0 {
        Trace { token, stage, calls: Seq::empty(), outcome: None }
    } else {
        let (s, a) = next(stage, signed, token, events[0]);
        let rest = drive(token_after(a, token), signed_after(a, token, signed), s, events.drop_first());
        Trace {
            token: rest.token,
            stage: rest.stage,
            calls: calls_of(a, token) + rest.calls,
            outcome: if settles(a) {
                Some(a)
            } else {
                rest.outcome
            },
        }
    }
}

proof fn lemma_drive_step(token: Seq<char>, signed: Seq<char>, stage: Stage, e: Event, rest: Seq<Event>)
    ensures
        ({
            let (s, a) = next(stage, signed, token, e);
            let tail = drive(token_after(a, token), signed_after(a, token, signed), s, rest);
            drive(token, signed, stage, seq![e] + rest) == Trace {
                token: tail.token,
                stage: tail.stage,
                calls: calls_of(a, token) + tail.calls,
                outcome: if settles(a) {
                    Some(a)
                } else {
                    tail.outcome
                },
            }
        }),
{
    let events = seq![e] + rest;
    assert(events[0] == e);
    assert(events.drop_first() =~= rest);
}

/// Once a request is settled, nothing that the driver reports makes it
/// call the network again or touch the token.
pub proof fn lemma_settled_is_final(token: Seq<char>, signed: Seq<char>, events: Seq<Event>)
    ensures
        drive(token, signed, Stage::Done, events) == (Trace {
            token,
            stage: Stage::Done,
            calls: Seq::empty(),
            outcome: None,
        }),
    decreases events.len(),
{
    if events.len() > 0 {
        lemma_settled_is_final(token, signed, events.drop_first());
        assert(Seq::<Call>::empty() + Seq::<Call>::empty() =~= Seq::<Call>::empty());
    }
}

/// Whatever the driver reports, a run never replaces a non-empty access
/// token by an empty one.
pub proof fn lemma_token_stays_non_empty(
    token: Seq<char>,
    signed: Seq<char>,
    stage: Stage,
    events: Seq<Event>,
)
    requires
        token.len() > 0,
    ensures
        drive(token, signed, stage, events).token.len() > 0,
    decreases events.len(),
{
    if events.len() > 0 {
        let (s, a) = next(stage, signed, token, events[0]);
        lemma_token_stays_non_empty(
            token_after(a, token),
            signed_after(a, token, signed),
            s,
            events.drop_first(),
        );
    }
}

/// A response that is not an authorization failure is delivered as it came,
/// after exactly one network call, the signed request; the token is untouched.
pub proof fn lemma_pass_through(token: Seq<char>, status: u16, later: Seq<Event>)
    requires
        !is_auth_failure(status),
    ensures
        ({
            let t = drive(
                token,
                Seq::empty(),
                Stage::Start,
                seq![Event::Begin, Event::Response { status }] + later,
            );
            &&& t.calls == seq![Call::Signed(token)]
            &&& t.outcome == Some(Action::Deliver { status })
            &&& t.token == token
            &&& t.stage == Stage::Done
        }),
{
    let r = Event::Response { status };
    assert(seq![Event::Begin, r] + later =~= seq![Event::Begin] + (seq![r] + later));
    lemma_drive_step(token, Seq::empty(), Stage::Start, Event::Begin, seq![r] + later);
    lemma_drive_step(token, token, Stage::AwaitingResponse, r, later);
    lemma_settled_is_final(token, token, later);
    assert(seq![Call::Signed(token)] + (Seq::<Call>::empty() + Seq::<Call>::empty())
        =~= seq![Call::Signed(token)]);
}

/// An authorization failure followed by a successful refresh (one that
/// yields a non-empty access token) makes exactly three calls: the request,
/// the refresh, and one retry signed with the refreshed token. The retry's
/// response is delivered whatever its status: there is no second refresh.
pub proof fn lemma_refresh_and_retry(
    token: Seq<char>,
    status: u16,
    refreshed: RefreshResponse,
    retry_status: u16,
    later: Seq<Event>,
)
    requires
        is_auth_failure(status),
        refreshed.access_token@.len() > 0,
    ensures
        ({
            let t = drive(
                token,
                Seq::empty(),
                Stage::Start,
                seq![
                    Event::Begin,
                    Event::Response { status },
                    Event::Refreshed(refreshed),
                    Event::Committed,
                    Event::Response { status: retry_status },
                ] + later,
            );
            &&& t.calls == seq![
                Call::Signed(token),
                Call::Refresh,
                Call::Signed(refreshed.access_token@),
            ]
            &&& t.outcome == Some(Action::Deliver { status: retry_status })
            &&& t.token == refreshed.access_token@
            &&& t.stage == Stage::Done
        }),
{
    let e1 = Event::Response { status };
    let e2 = Event::Refreshed(refreshed);
    let e3 = Event::Committed;
    let e4 = Event::Response { status: retry_status };
    let fresh = refreshed.access_token@;
    assert(seq![Event::Begin, e1, e2, e3, e4] + later =~= seq![Event::Begin] + (seq![e1] + (
    seq![e2] + (seq![e3] + (seq![e4] + later)))));
    lemma_drive_step(
        token,
        Seq::empty(),
        Stage::Start,
        Event::Begin,
        seq![e1] + (seq![e2] + (seq![e3] + (seq![e4] + later))),
    );
    lemma_drive_step(
        token,
        token,
        Stage::AwaitingResponse,
        e1,
        seq![e2] + (seq![e3] + (seq![e4] + later)),
    );
    lemma_drive_step(token, token, Stage::AwaitingRefresh, e2, seq![e3] + (seq![e4] + later));
    lemma_drive_step(fresh, token, Stage::AwaitingCommit, e3, seq![e4] + later);
    lemma_drive_step(fresh, fresh, Stage::AwaitingRetry, e4, later);
    lemma_settled_is_final(fresh, fresh, later);
    assert(seq![Call::Signed(token)] + (seq![Call::Refresh] + (Seq::<Call>::empty() + (
    seq![Call::Signed(fresh)] + (Seq::<Call>::empty() + Seq::<Call>::empty()))))
        =~= seq![Call::Signed(token), Call::Refresh, Call::Signed(fresh)]);
}

/// After a request has refreshed the token, the next request is signed with
/// the refreshed token.
pub proof fn lemma_later_requests_see_refresh(
    token: Seq<char>,
    status: u16,
    refreshed: RefreshResponse,
    retry_status: u16,
    later: Seq<Event>,
    next_events: Seq<Event>,
)
    requires
        is_auth_failure(status),
        refreshed.access_token@.len() > 0,
    ensures
        ({
            let first = drive(
                token,
                Seq::empty(),
                Stage::Start,
                seq![
                    Event::Begin,
                    Event::Response { status },
                    Event::Refreshed(refreshed),
                    Event::Committed,
                    Event::Response { status: retry_status },
                ] + later,
            );
            let second = drive(
                first.token,
                Seq::empty(),
                Stage::Start,
                seq![Event::Begin] + next_events,
            );
            second.calls[0] == Call::Signed(refreshed.access_token@)
        }),
{
    lemma_refresh_and_retry(token, status, refreshed, retry_status, later);
    let fresh = refreshed.access_token@;
    lemma_drive_step(fresh, Seq::empty(), Stage::Start, Event::Begin, next_events);
}

/// When the refresh call fails, the request fails with that error after two
/// calls, and the token stays what it was.
pub proof fn lemma_failed_refresh_keeps_token(
    token: Seq<char>,
    status: u16,
    kind: FailureKind,
    later: Seq<Event>,
)
    requires
        is_auth_failure(status),
    ensures
        ({
            let t = drive(
                token,
                Seq::empty(),
                Stage::Start,
                seq![Event::Begin, Event::Response { status }, Event::Failed(kind)] + later,
            );
            &&& t.calls == seq![Call::Signed(token), Call::Refresh]
            &&& t.outcome == Some(Action::Fail(kind))
            &&& t.token == token
            &&& t.stage == Stage::Done
        }),
{
    let e1 = Event::Response { status };
    let e2 = Event::Failed(kind);
    assert(seq![Event::Begin, e1, e2] + later =~= seq![Event::Begin] + (seq![e1] + (seq![e2]
        + later)));
    lemma_drive_step(token, Seq::empty(), Stage::Start, Event::Begin, seq![e1] + (seq![e2] + later));
    lemma_drive_step(token, token, Stage::AwaitingResponse, e1, seq![e2] + later);
    lemma_drive_step(token, token, Stage::AwaitingRefresh, e2, later);
    lemma_settled_is_final(token, token, later);
    assert(seq![Call::Signed(token)] + (seq![Call::Refresh] + (Seq::<Call>::empty()
        + Seq::<Call>::empty())) =~= seq![Call::Signed(token), Call::Refresh]);
}

/// A request that is rejected after another request has already installed a
/// new token is retried once with the token in force, without a refresh of
/// its own; the retry's response is delivered whatever its status.
pub proof fn lemma_stale_rejection_shares_refresh(
    signed: Seq<char>,
    current: Seq<char>,
    status: u16,
    retry_status: u16,
    later: Seq<Event>,
)
    requires
        is_auth_failure(status),
        signed != current,
    ensures
        ({
            let t = drive(
                current,
                signed,
                Stage::AwaitingResponse,
                seq![Event::Response { status }, Event::Response { status: retry_status }] + later,
            );
            &&& t.calls == seq![Call::Signed(current)]
            &&& t.outcome == Some(Action::Deliver { status: retry_status })
            &&& t.token == current
            &&& t.stage == Stage::Done
        }),
{
    let e1 = Event::Response { status };
    let e2 = Event::Response { status: retry_status };
    assert(seq![e1, e2] + later =~= seq![e1] + (seq![e2] + later));
    lemma_drive_step(current, signed, Stage::AwaitingResponse, e1, seq![e2] + later);
    lemma_drive_step(current, current, Stage::AwaitingRetry, e2, later);
    lemma_settled_is_final(current, current, later);
    assert(seq![Call::Signed(current)] + (Seq::<Call>::empty() + Seq::<Call>::empty())
        =~= seq![Call::Signed(current)]);
}

} // verus!
