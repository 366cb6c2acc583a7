//! The client that asks a running broker for its health.

use crate::encoding;
use crate::http;
use vstd::prelude::*;
use vstd::string::*;
use vstd::utf8::*;

verus! {

/// Seconds that the connection may take, and as many again the answer.
pub const HEALTHCHECK_TIMEOUT: u64 = 5;

/// What the healthcheck waits for.
#[derive(Clone, Copy, Debug, PartialEq, Eq, Structural)]
pub enum HealthcheckState {
    Connecting,
    Sending,
    Receiving,
    Finished,
}

/// What the healthcheck does.
#[derive(Debug, PartialEq, Eq)]
pub enum HealthcheckAction {
    /// Connect to the socket, within so many seconds.
    Connect { seconds: u64 },
    /// Send these bytes.
    Send(Vec<u8>),
    /// Receive all that comes, within so many seconds.
    Receive { seconds: u64 },
    /// The healthcheck is over.
    Finish(Result<(), HealthcheckError>),
}

/// The value of a `HealthcheckAction`.
pub enum HealthcheckActionView {
    Connect { seconds: u64 },
    Send(Seq<u8>),
    Receive { seconds: u64 },
    Finish(Result<(), HealthcheckErrorView>),
}

/// What came of an action. A failure comes with what is said about it.
#[derive(Debug)]
pub enum HealthcheckEvent {
    Connected,
    Sent,
    Received(Vec<u8>),
    TimedOut(String),
    Failed(String),
}

/// The value of a `HealthcheckEvent`.
pub enum HealthcheckEventView {
    Connected,
    Sent,
    Received(Seq<u8>),
    TimedOut(Seq<char>),
    Failed(Seq<char>),
}

/// Why the broker does not count as healthy.
#[derive(Debug, PartialEq, Eq)]
pub enum HealthcheckError {
    /// The connection took too long.
    ConnectionTimedOut(String),
    /// There is no connection.
    ConnectionFailed(String),
    /// The request could not be sent.
    CannotSend(String),
    /// The answer took too long.
    ResponseTimedOut(String),
    /// There is no answer.
    ResponseFailed(String),
    /// The answer is not that of a healthy broker.
    Unhealthy,
}

/// The value of a `HealthcheckError`.
pub enum HealthcheckErrorView {
    ConnectionTimedOut(Seq<char>),
    ConnectionFailed(Seq<char>),
    CannotSend(Seq<char>),
    ResponseTimedOut(Seq<char>),
    ResponseFailed(Seq<char>),
    Unhealthy,
}

impl View for HealthcheckError {
    type V = HealthcheckErrorView;

    open spec fn view(&self) -> HealthcheckErrorView {
        match *self {
            HealthcheckError::ConnectionTimedOut(s) => HealthcheckErrorView::ConnectionTimedOut(s@),
            HealthcheckError::ConnectionFailed(s) => HealthcheckErrorView::ConnectionFailed(s@),
            HealthcheckError::CannotSend(s) => HealthcheckErrorView::CannotSend(s@),
            HealthcheckError::ResponseTimedOut(s) => HealthcheckErrorView::ResponseTimedOut(s@),
            HealthcheckError::ResponseFailed(s) => HealthcheckErrorView::ResponseFailed(s@),
            HealthcheckError::Unhealthy => HealthcheckErrorView::Unhealthy,
        }
    }
}

impl View for HealthcheckAction {
    type V = HealthcheckActionView;

    open spec fn view(&self) -> HealthcheckActionView {
        match *self {
            HealthcheckAction::Connect { seconds } => HealthcheckActionView::Connect { seconds },
            HealthcheckAction::Send(bytes) => HealthcheckActionView::Send(bytes@),
            HealthcheckAction::Receive { seconds } => HealthcheckActionView::Receive { seconds },
            HealthcheckAction::Finish(Ok(())) => HealthcheckActionView::Finish(Ok(())),
            HealthcheckAction::Finish(Err(e)) => HealthcheckActionView::Finish(Err(e@)),
        }
    }
}

impl View for HealthcheckEvent {
    type V = HealthcheckEventView;

    open spec fn view(&self) -> HealthcheckEventView {
        match *self {
            HealthcheckEvent::Connected => HealthcheckEventView::Connected,
            HealthcheckEvent::Sent => HealthcheckEventView::Sent,
            HealthcheckEvent::Received(bytes) => HealthcheckEventView::Received(bytes@),
            HealthcheckEvent::TimedOut(s) => HealthcheckEventView::TimedOut(s@),
            HealthcheckEvent::Failed(s) => HealthcheckEventView::Failed(s@),
        }
    }
}

impl HealthcheckErrorView {
    /// What is said about the error.
    pub open spec fn text(self) -> Seq<char> {
        match self {
            HealthcheckErrorView::ConnectionTimedOut(_) =>
                "Broker healthcheck connection timed out"@,
            HealthcheckErrorView::ConnectionFailed(s) => s,
            HealthcheckErrorView::CannotSend(_) => "Unable to send healthcheck request"@,
            HealthcheckErrorView::ResponseTimedOut(_) => "Broker healthcheck response timed out"@,
            HealthcheckErrorView::ResponseFailed(s) => s,
            HealthcheckErrorView::Unhealthy => "Broker is unhealthy"@,
        }
    }

    /// What is said about the error behind it, if there is one.
    pub open spec fn source_text(self) -> Option<Seq<char>> {
        match self {
            HealthcheckErrorView::ConnectionTimedOut(s) => Some(s),
            HealthcheckErrorView::CannotSend(s) => Some(s),
            HealthcheckErrorView::ResponseTimedOut(s) => Some(s),
            _ => None,
        }
    }
}

impl HealthcheckError {
    /// The text that is said, as a string.
    pub fn message(&self) -> (text: String)
        ensures
            text@ == self@.text(),
    {
        match self {
            HealthcheckError::ConnectionTimedOut(_) => {
                "Broker healthcheck connection timed out".to_owned()
            },
            HealthcheckError::ConnectionFailed(s) => s.clone(),
            HealthcheckError::CannotSend(_) => "Unable to send healthcheck request".to_owned(),
            HealthcheckError::ResponseTimedOut(_) => {
                "Broker healthcheck response timed out".to_owned()
            },
            HealthcheckError::ResponseFailed(s) => s.clone(),
            HealthcheckError::Unhealthy => "Broker is unhealthy".to_owned(),
        }
    }

    /// The text that is said about the error behind it, as a string.
    pub fn source(&self) -> (text: Option<String>)
        ensures
            match text {
                Some(s) => self@.source_text() == Some(s@),
                None => self@.source_text() is None,
            },
    {
        match self {
            HealthcheckError::ConnectionTimedOut(s) => Some(s.clone()),
            HealthcheckError::CannotSend(s) => Some(s.clone()),
            HealthcheckError::ResponseTimedOut(s) => Some(s.clone()),
            _ => None,
        }
    }
}

/// The bytes that ask for the health of the broker.
pub open spec fn request_bytes() -> Seq<u8> {
    encode_utf8("GET /healthz HTTP/1.1\r\nHost: localhost\r\nConnection: close\r\n\r\n"@)
}

/// The answer is that of a healthy broker: it begins with the status line of a success.
pub open spec fn says_healthy(response: Seq<u8>) -> bool {
    encode_utf8("HTTP/1.1 200"@).is_prefix_of(response)
}

impl HealthcheckState {
    /// The event answers the action that led to this state.
    pub open spec fn awaits(self, event: HealthcheckEventView) -> bool {
        match self {
            HealthcheckState::Connecting => event is Connected || event is TimedOut
                || event is Failed,
            HealthcheckState::Sending => event is Sent || event is Failed,
            HealthcheckState::Receiving => event is Received || event is TimedOut
                || event is Failed,
            HealthcheckState::Finished => false,
        }
    }
}

/// How a healthcheck begins.
pub open spec fn healthcheck_start() -> (HealthcheckState, HealthcheckActionView) {
    (
        HealthcheckState::Connecting,
        HealthcheckActionView::Connect { seconds: HEALTHCHECK_TIMEOUT },
    )
}

/// The end of a healthcheck.
pub open spec fn finished(result: Result<(), HealthcheckErrorView>) -> (
    HealthcheckState,
    HealthcheckActionView,
) {
    (HealthcheckState::Finished, HealthcheckActionView::Finish(result))
}

/// What one event makes of a healthcheck.
pub open spec fn healthcheck_next(state: HealthcheckState, event: HealthcheckEventView) -> (
    HealthcheckState,
    HealthcheckActionView,
) {
    match (state, event) {
        (HealthcheckState::Connecting, HealthcheckEventView::Connected) => (
            HealthcheckState::Sending,
            HealthcheckActionView::Send(request_bytes()),
        ),
        (HealthcheckState::Connecting, HealthcheckEventView::TimedOut(s)) => finished(
            Err(HealthcheckErrorView::ConnectionTimedOut(s)),
        ),
        (HealthcheckState::Connecting, HealthcheckEventView::Failed(s)) => finished(
            Err(HealthcheckErrorView::ConnectionFailed(s)),
        ),
        (HealthcheckState::Sending, HealthcheckEventView::Sent) => (
            HealthcheckState::Receiving,
            HealthcheckActionView::Receive { seconds: HEALTHCHECK_TIMEOUT },
        ),
        (HealthcheckState::Sending, HealthcheckEventView::Failed(s)) => finished(
            Err(HealthcheckErrorView::CannotSend(s)),
        ),
        (HealthcheckState::Receiving, HealthcheckEventView::Received(response)) => finished(
            if says_healthy(response) {
                Ok(())
            } else {
                Err(HealthcheckErrorView::Unhealthy)
            },
        ),
        (HealthcheckState::Receiving, HealthcheckEventView::TimedOut(s)) => finished(
            Err(HealthcheckErrorView::ResponseTimedOut(s)),
        ),
        (HealthcheckState::Receiving, HealthcheckEventView::Failed(s)) => finished(
            Err(HealthcheckErrorView::ResponseFailed(s)),
        ),
        _ => arbitrary(),
    }
}

/// Begin a healthcheck.
pub fn healthcheck() -> (r: (HealthcheckState, HealthcheckAction))
    ensures
        r.0 == healthcheck_start().0,
        r.1@ == healthcheck_start().1,
{
    (
        HealthcheckState::Connecting,
        HealthcheckAction::Connect { seconds: HEALTHCHECK_TIMEOUT },
    )
}

/// The result of a healthcheck that got this answer.
fn verdict(response: &Vec<u8>) -> (r: Result<(), HealthcheckError>)
    ensures
        match r {
            Ok(()) => says_healthy(response@),
            Err(e) => !says_healthy(response@) && e == HealthcheckError::Unhealthy,
        },
        r is Ok <==> {
            &&& response@.len() >= 12
            &&& response@[0] == 72 && response@[1] == 84 && response@[2] == 84 && response@[3] == 80
            &&& response@[4] == 47 && response@[5] == 49 && response@[6] == 46 && response@[7] == 49
            &&& response@[8] == 32
            &&& response@[9] == 50 && response@[10] == 48 && response@[11] == 48
        },
{
    proof {
        law_verdict_is_on_the_first_bytes(response@);
    }
    if encoding::bytes_start_with(response, &"HTTP/1.1 200".as_bytes_vec()) {
        Ok(())
    } else {
        Err(HealthcheckError::Unhealthy)
    }
}

impl HealthcheckState {
    /// Whether the event answers the action that led to this state.
    pub fn accepts(&self, event: &HealthcheckEvent) -> (yes: bool)
        ensures
            yes == self.awaits(event@),
    {
        match (self, event) {
            (HealthcheckState::Connecting, HealthcheckEvent::Connected) => true,
            (HealthcheckState::Connecting, HealthcheckEvent::TimedOut(_)) => true,
            (HealthcheckState::Connecting, HealthcheckEvent::Failed(_)) => true,
            (HealthcheckState::Sending, HealthcheckEvent::Sent) => true,
            (HealthcheckState::Sending, HealthcheckEvent::Failed(_)) => true,
            (HealthcheckState::Receiving, HealthcheckEvent::Received(_)) => true,
            (HealthcheckState::Receiving, HealthcheckEvent::TimedOut(_)) => true,
            (HealthcheckState::Receiving, HealthcheckEvent::Failed(_)) => true,
            _ => false,
        }
    }

    /// Take in what came of the last action, and say what to do next.
    pub fn advance(self, event: HealthcheckEvent) -> (r: (HealthcheckState, HealthcheckAction))
        requires
            self.awaits(event@),
        ensures
            r.0 == healthcheck_next(self, event@).0,
            r.1@ == healthcheck_next(self, event@).1,
    {
        let result: Result<(), HealthcheckError> = match (self, event) {
            (HealthcheckState::Connecting, HealthcheckEvent::Connected) => {
                let request =
                    "GET /healthz HTTP/1.1\r\nHost: localhost\r\nConnection: close\r\n\r\n";
                return (
                    HealthcheckState::Sending,
                    HealthcheckAction::Send(request.as_bytes_vec()),
                );
            },
            (HealthcheckState::Sending, HealthcheckEvent::Sent) => {
                return (
                    HealthcheckState::Receiving,
                    HealthcheckAction::Receive { seconds: HEALTHCHECK_TIMEOUT },
                );
            },
            (HealthcheckState::Connecting, HealthcheckEvent::TimedOut(s)) => Err(
                HealthcheckError::ConnectionTimedOut(s),
            ),
            (HealthcheckState::Connecting, HealthcheckEvent::Failed(s)) => Err(
                HealthcheckError::ConnectionFailed(s),
            ),
            (HealthcheckState::Sending, HealthcheckEvent::Failed(s)) => Err(
                HealthcheckError::CannotSend(s),
            ),
            (HealthcheckState::Receiving, HealthcheckEvent::Received(response)) => verdict(
                &response,
            ),
            (HealthcheckState::Receiving, HealthcheckEvent::TimedOut(s)) => Err(
                HealthcheckError::ResponseTimedOut(s),
            ),
            (HealthcheckState::Receiving, HealthcheckEvent::Failed(s)) => Err(
                HealthcheckError::ResponseFailed(s),
            ),
            _ => vstd::pervasive::unreached(),
        };
        (HealthcheckState::Finished, HealthcheckAction::Finish(result))
    }
}

/// Where a healthcheck stands after a sequence of events.
pub open spec fn healthcheck_reached(events: Seq<HealthcheckEventView>) -> (
    HealthcheckState,
    HealthcheckActionView,
)
    decreases events.len(),
{
    if events.len() == 0 {
        healthcheck_start()
    } else {
        healthcheck_next(healthcheck_reached(events.drop_last()).0, events.last())
    }
}

/// Each event answers the action before it.
pub open spec fn healthcheck_answered(events: Seq<HealthcheckEventView>) -> bool
    decreases events.len(),
{
    events.len() == 0 || {
        &&& healthcheck_answered(events.drop_last())
        &&& healthcheck_reached(events.drop_last()).0.awaits(events.last())
    }
}

/// What the state tells of the past.
spec fn so_far(events: Seq<HealthcheckEventView>) -> bool {
    let (state, action) = healthcheck_reached(events);
    match state {
        HealthcheckState::Connecting => events.len() == 0 && action
            == healthcheck_start().1,
        HealthcheckState::Sending => {
            &&& events.len() == 1
            &&& events[0] is Connected
            &&& action == HealthcheckActionView::Send(request_bytes())
        },
        HealthcheckState::Receiving => {
            &&& events.len() == 2
            &&& events[0] is Connected
            &&& events[1] is Sent
            &&& action == (HealthcheckActionView::Receive { seconds: HEALTHCHECK_TIMEOUT })
        },
        HealthcheckState::Finished => {
            &&& 1 <= events.len() <= 3
            &&& action matches HealthcheckActionView::Finish(result)
            &&& result is Ok <==> {
                &&& events.len() == 3
                &&& events[0] is Connected
                &&& events[1] is Sent
                &&& events[2] matches HealthcheckEventView::Received(response)
                &&& says_healthy(response)
            }
        },
    }
}

proof fn lemma_so_far(events: Seq<HealthcheckEventView>)
    requires
        healthcheck_answered(events),
    ensures
        so_far(events),
    decreases events.len(),
{
    if events.len() > 0 {
        let earlier = events.drop_last();
        lemma_so_far(earlier);
        assert(forall|i: int| 0 <= i < earlier.len() ==> earlier[i] == events[i]);
        assert(events.last() == events[events.len() - 1]);
    }
}

/// A healthcheck is over after at most three events, and it succeeds if and only if it connected,
/// sent its request, and got the answer of a healthy broker.
pub proof fn law_healthcheck_outcome(events: Seq<HealthcheckEventView>)
    requires
        healthcheck_answered(events),
    ensures
        events.len() <= 3,
        healthcheck_reached(events).0 == HealthcheckState::Finished <==> healthcheck_reached(
            events,
        ).1 is Finish,
        healthcheck_reached(events).1 == HealthcheckActionView::Finish(Ok(())) <==> {
            &&& events.len() == 3
            &&& events[0] is Connected
            &&& events[1] is Sent
            &&& events[2] matches HealthcheckEventView::Received(response)
            &&& says_healthy(response)
        },
{
    lemma_so_far(events);
}

/// The first twelve bytes of an answer decide alone: it is that of a healthy broker if and only if
/// they are those of `HTTP/1.1 200`.
pub proof fn law_verdict_is_on_the_first_bytes(response: Seq<u8>)
    ensures
        says_healthy(response) <==> {
            &&& response.len() >= 12
            &&& response[0] == 72 && response[1] == 84 && response[2] == 84 && response[3] == 80
            &&& response[4] == 47 && response[5] == 49 && response[6] == 46 && response[7] == 49
            &&& response[8] == 32
            &&& response[9] == 50 && response[10] == 48 && response[11] == 48
        },
{
    let status = "HTTP/1.1 200"@;
    reveal_strlit("HTTP/1.1 200");
    is_ascii_chars_encode_utf8(status);
    let bytes = encode_utf8(status);
    assert(bytes.len() == 12);
    assert(bytes =~= seq![72u8, 84, 84, 80, 47, 49, 46, 49, 32, 50, 48, 48]) by {
        assert forall|i: int| 0 <= i < 12 implies bytes[i] == status[i] as u8 by {}
    }
    if response.len() >= 12 {
        let front = response.subrange(0, 12);
        assert forall|i: int| 0 <= i < 12 implies front[i] == response[i] by {}
        if says_healthy(response) {
            assert(front =~= bytes);
            assert(front[0] == 72 && front[1] == 84 && front[2] == 84 && front[3] == 80);
            assert(front[4] == 47 && front[5] == 49 && front[6] == 46 && front[7] == 49);
            assert(front[8] == 32 && front[9] == 50 && front[10] == 48 && front[11] == 48);
        }
    }
}

/// Whatever headers and body follow a status line decides nothing: two answers with the same first
/// twelve bytes are judged alike, and a healthy one stays so with anything after it.
pub proof fn law_headers_and_body_decide_nothing(status: Seq<u8>, a: Seq<u8>, b: Seq<u8>)
    ensures
        status.len() >= 12 ==> says_healthy(status + a) == says_healthy(status + b),
        says_healthy(status) ==> says_healthy(status + a),
        says_healthy(encode_utf8("HTTP/1.1 200"@) + a),
{
    let line = encode_utf8("HTTP/1.1 200"@);
    reveal_strlit("HTTP/1.1 200");
    is_ascii_chars_encode_utf8("HTTP/1.1 200"@);
    assert(line.is_prefix_of(line));
    law_verdict_is_on_the_first_bytes(line);
    law_verdict_is_on_the_first_bytes(line + a);
    law_verdict_is_on_the_first_bytes(status);
    law_verdict_is_on_the_first_bytes(status + a);
    law_verdict_is_on_the_first_bytes(status + b);
}

/// One more event.
proof fn lemma_healthcheck_push(events: Seq<HealthcheckEventView>, event: HealthcheckEventView)
    ensures
        healthcheck_reached(events.push(event)) == healthcheck_next(
            healthcheck_reached(events).0,
            event,
        ),
        healthcheck_answered(events.push(event)) == (healthcheck_answered(events)
            && healthcheck_reached(events).0.awaits(event)),
{
    assert(events.push(event).drop_last() =~= events);
}

/// A healthcheck connects within five seconds, sends its request, and receives the answer within
/// five seconds; the answer of a healthy broker makes it succeed, and every other answer fails it.
pub proof fn law_healthcheck_steps(response: Seq<u8>)
    ensures
        ({
            let e0 = Seq::<HealthcheckEventView>::empty();
            let e1 = e0.push(HealthcheckEventView::Connected);
            let e2 = e1.push(HealthcheckEventView::Sent);
            let e3 = e2.push(HealthcheckEventView::Received(response));
            &&& healthcheck_answered(e3)
            &&& healthcheck_reached(e0).1 == (HealthcheckActionView::Connect { seconds: 5 })
            &&& healthcheck_reached(e1).1 == HealthcheckActionView::Send(request_bytes())
            &&& healthcheck_reached(e2).1 == (HealthcheckActionView::Receive { seconds: 5 })
            &&& healthcheck_reached(e3).1 == HealthcheckActionView::Finish(
                if says_healthy(response) {
                    Ok(())
                } else {
                    Err(HealthcheckErrorView::Unhealthy)
                },
            )
        }),
{
    let e0 = Seq::<HealthcheckEventView>::empty();
    let e1 = e0.push(HealthcheckEventView::Connected);
    let e2 = e1.push(HealthcheckEventView::Sent);
    lemma_healthcheck_push(e0, HealthcheckEventView::Connected);
    lemma_healthcheck_push(e1, HealthcheckEventView::Sent);
    lemma_healthcheck_push(e2, HealthcheckEventView::Received(response));
}

/// What a healthcheck says that fails on the way, and what stands behind it.
pub proof fn law_healthcheck_failures(said: Seq<char>)
    ensures
        ({
            let e0 = Seq::<HealthcheckEventView>::empty();
            let e1 = e0.push(HealthcheckEventView::Connected);
            let e2 = e1.push(HealthcheckEventView::Sent);
            let late = HealthcheckEventView::TimedOut(said);
            let failed = HealthcheckEventView::Failed(said);
            let timed_out = "Broker healthcheck connection timed out"@;
            let unsent = "Unable to send healthcheck request"@;
            let unanswered = "Broker healthcheck response timed out"@;
            &&& fails_with(e0.push(late), timed_out, Some(said))
            &&& fails_with(e0.push(failed), said, None)
            &&& fails_with(e1.push(failed), unsent, Some(said))
            &&& fails_with(e2.push(late), unanswered, Some(said))
            &&& fails_with(e2.push(failed), said, None)
            &&& HealthcheckErrorView::Unhealthy.text() == "Broker is unhealthy"@
            &&& HealthcheckErrorView::Unhealthy.source_text() is None
        }),
{
    let e0 = Seq::<HealthcheckEventView>::empty();
    let e1 = e0.push(HealthcheckEventView::Connected);
    let e2 = e1.push(HealthcheckEventView::Sent);
    let late = HealthcheckEventView::TimedOut(said);
    let failed = HealthcheckEventView::Failed(said);
    lemma_healthcheck_push(e0, HealthcheckEventView::Connected);
    lemma_healthcheck_push(e1, HealthcheckEventView::Sent);
    lemma_healthcheck_push(e0, late);
    lemma_healthcheck_push(e0, failed);
    lemma_healthcheck_push(e1, failed);
    lemma_healthcheck_push(e2, late);
    lemma_healthcheck_push(e2, failed);
}

/// After these events the healthcheck has failed and says this.
pub open spec fn fails_with(
    events: Seq<HealthcheckEventView>,
    text: Seq<char>,
    source: Option<Seq<char>>,
) -> bool {
    &&& healthcheck_answered(events)
    &&& healthcheck_reached(events).1 matches HealthcheckActionView::Finish(Err(e))
    &&& e.text() == text
    &&& e.source_text() == source
}

/// The request is for the resource under which the broker answers with its health, and asks it to
/// close the connection after the answer, without which the answer would have no end.
pub proof fn law_request_is_for_the_health()
    ensures
        http::asks_health("GET"@, "/healthz"@),
        request_bytes() == encode_utf8(
            "GET"@ + " "@ + "/healthz"@ + " HTTP/1.1\r\n"@ + "Host: localhost\r\n"@
                + "Connection: close\r\n"@ + "\r\n"@,
        ),
{
    reveal_strlit("GET /healthz HTTP/1.1\r\nHost: localhost\r\nConnection: close\r\n\r\n");
    reveal_strlit("GET");
    reveal_strlit(" ");
    reveal_strlit("/healthz");
    reveal_strlit(" HTTP/1.1\r\n");
    reveal_strlit("Host: localhost\r\n");
    reveal_strlit("Connection: close\r\n");
    reveal_strlit("\r\n");
    assert("GET /healthz HTTP/1.1\r\nHost: localhost\r\nConnection: close\r\n\r\n"@ =~= "GET"@
        + " "@ + "/healthz"@ + " HTTP/1.1\r\n"@ + "Host: localhost\r\n"@
        + "Connection: close\r\n"@ + "\r\n"@);
}

/// The value of an event is all that came of the action, the value of an action all that it asks
/// for, and the value of an error all that it says.
pub proof fn law_views_leave_nothing_out(
    seconds: u64,
    bytes: Vec<u8>,
    text: String,
    error: HealthcheckError,
)
    ensures
        HealthcheckEvent::Connected@ == HealthcheckEventView::Connected,
        HealthcheckEvent::Sent@ == HealthcheckEventView::Sent,
        HealthcheckEvent::Received(bytes)@ == HealthcheckEventView::Received(bytes@),
        HealthcheckEvent::TimedOut(text)@ == HealthcheckEventView::TimedOut(text@),
        HealthcheckEvent::Failed(text)@ == HealthcheckEventView::Failed(text@),
        (HealthcheckAction::Connect { seconds })@ == (HealthcheckActionView::Connect { seconds }),
        HealthcheckAction::Send(bytes)@ == HealthcheckActionView::Send(bytes@),
        (HealthcheckAction::Receive { seconds })@ == (HealthcheckActionView::Receive { seconds }),
        HealthcheckAction::Finish(Ok(()))@ == HealthcheckActionView::Finish(Ok(())),
        HealthcheckAction::Finish(Err(error))@ == HealthcheckActionView::Finish(Err(error@)),
        HealthcheckError::ConnectionTimedOut(text)@ == HealthcheckErrorView::ConnectionTimedOut(
            text@,
        ),
        HealthcheckError::ConnectionFailed(text)@ == HealthcheckErrorView::ConnectionFailed(text@),
        HealthcheckError::CannotSend(text)@ == HealthcheckErrorView::CannotSend(text@),
        HealthcheckError::ResponseTimedOut(text)@ == HealthcheckErrorView::ResponseTimedOut(text@),
        HealthcheckError::ResponseFailed(text)@ == HealthcheckErrorView::ResponseFailed(text@),
        HealthcheckError::Unhealthy@ == HealthcheckErrorView::Unhealthy,
{
}

} // verus!
