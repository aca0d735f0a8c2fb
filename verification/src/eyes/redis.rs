//! Listening to a Redis channel for sensor messages.
use vstd::prelude::*;
use vstd::string::to_string_from_display_ensures;
use vstd::utf8::{decode_utf8, valid_utf8};

verus! {

/// A listener on a Redis server.
pub struct RedisListener {
    pub connection: redis::Connection,
}

/// Why no Redis client could be had.
#[derive(Debug, Clone, PartialEq, Eq)]
pub enum ClientError {
    /// No Redis URL is configured.
    UrlMissing,
    /// The configured text is no Redis URL; the client said why.
    UrlInvalid(String),
}

/// Whether `redis::Client::open` accepts the text `url` as the address of a
/// Redis server. The answer is fixed by the text and by how the redis crate
/// was built (its TLS features, and whether the target has Unix sockets).
pub uninterp spec fn opens_redis_client(url: Seq<char>) -> bool;

/// Trusted: `redis::Client::open` on a text. It only reads the URL (the
/// redis crate parses it with `url::Url::parse` and checks scheme, host,
/// database number and credentials) and connects to nothing; it succeeds
/// exactly on the texts named by `opens_redis_client`. The client itself is
/// left opaque.
#[verifier::external_body]
pub(crate) fn open_redis_client(redis_url: &str) -> (res: Result<redis::Client, redis::RedisError>)
    ensures
        res is Ok <==> opens_redis_client(redis_url@),
{
    redis::Client::open(redis_url)
}

/// The client for the configured Redis URL `redis_url`, before any
/// connection is made: an error where no URL is configured or where the
/// text is no Redis URL.
pub fn redis_client(redis_url: Option<&str>) -> (res: Result<redis::Client, ClientError>)
    ensures
        redis_url is None ==> res == Err::<redis::Client, ClientError>(ClientError::UrlMissing),
        redis_url matches Some(url) ==> (res is Ok <==> opens_redis_client(url@)),
        redis_url matches Some(_) ==> (res matches Err(error) ==> error is UrlInvalid),
        res matches Err(ClientError::UrlInvalid(text)) ==> exists|error: redis::RedisError|
            to_string_from_display_ensures::<redis::RedisError>(&error, text),
{
    match redis_url {
        None => Err(ClientError::UrlMissing),
        Some(url) => match open_redis_client(url) {
            Ok(client) => Ok(client),
            Err(error) => {
                let text = error.to_string();
                assert(exists|e: redis::RedisError| to_string_from_display_ensures::<redis::RedisError>(&e, text));
                let res: Result<redis::Client, ClientError> = Err(ClientError::UrlInvalid(text));
                assert(res matches Err(ClientError::UrlInvalid(t)) && t == text);
                res
            },
        },
    }
}

/// The text that `String::from_utf8_lossy` (std) makes of `bytes`: the
/// decoded text, with each invalid sequence replaced by U+FFFD.
pub uninterp spec fn lossy_utf8(bytes: Seq<u8>) -> Seq<char>;

/// Trusted: `String::from_utf8_lossy` (std), turned into an owned `String`.
/// Its result is the named `lossy_utf8` of the bytes; as std documents, on
/// valid UTF-8 it is the decoded text itself.
#[verifier::external_body]
pub(crate) fn payload_text(bytes: &[u8]) -> (text: String)
    ensures
        text@ == lossy_utf8(bytes@),
        valid_utf8(bytes@) ==> text@ == decode_utf8(bytes@),
{
    String::from_utf8_lossy(bytes).to_string()
}

/// Where a listening session stands.
#[derive(Debug, Clone, Copy, PartialEq, Eq, Structural)]
pub enum SessionPhase {
    /// The channel is not subscribed yet.
    Subscribing,
    /// The channel is subscribed and messages are awaited.
    Listening,
    /// Receiving failed: the session is over.
    Closed,
}

/// What happened to a listening session.
#[derive(Debug, Clone, PartialEq, Eq)]
pub enum SessionEvent {
    /// The subscription to the channel succeeded.
    Subscribed,
    /// The subscription to the channel failed.
    SubscribeFailed,
    /// A message with this payload arrived.
    Received(Vec<u8>),
    /// Receiving a message failed.
    ReceiveFailed,
}

/// What a listening session does next.
#[derive(Debug, Clone, PartialEq, Eq)]
pub enum SessionAction {
    /// Wait this many seconds, then subscribe again.
    WaitThenSubscribe(u64),
    /// Wait for the next message.
    AwaitMessage,
    /// Hand on the text of the message that arrived.
    Deliver(String),
    /// End the session with the receive error.
    Stop,
    /// The event means nothing where the session stands.
    Ignore,
}

/// The phase a session enters on `event`.
pub open spec fn next_phase(phase: SessionPhase, event: SessionEvent) -> SessionPhase {
    match (phase, event) {
        (SessionPhase::Subscribing, SessionEvent::Subscribed) => SessionPhase::Listening,
        (SessionPhase::Listening, SessionEvent::ReceiveFailed) => SessionPhase::Closed,
        _ => phase,
    }
}

/// The phase a session reaches from `phase` through `events`, in order.
pub open spec fn phase_after(phase: SessionPhase, events: Seq<SessionEvent>) -> SessionPhase
    decreases events.len(),
{
    if events.len() == 0 {
        phase
    } else {
        phase_after(next_phase(phase, events[0]), events.drop_first())
    }
}

/// One step of a listening session, where `retry_secs` is the configured
/// wait between two subscriptions: a failed subscription is tried again
/// after the wait, each message received is delivered as text, and a
/// receive error ends the session.
pub fn session_step(phase: SessionPhase, event: SessionEvent, retry_secs: u64) -> (res: (SessionPhase, SessionAction))
    ensures
        res.0 == next_phase(phase, event),
        match (phase, event) {
            (SessionPhase::Subscribing, SessionEvent::Subscribed) => res.1 == SessionAction::AwaitMessage,
            (SessionPhase::Subscribing, SessionEvent::SubscribeFailed) => res.1 == SessionAction::WaitThenSubscribe(retry_secs),
            (SessionPhase::Listening, SessionEvent::Received(bytes)) => res.1 matches SessionAction::Deliver(text) && text@ == lossy_utf8(bytes@),
            (SessionPhase::Listening, SessionEvent::ReceiveFailed) => res.1 == SessionAction::Stop,
            _ => res.1 == SessionAction::Ignore,
        },
{
    match phase {
        SessionPhase::Subscribing => match event {
            SessionEvent::Subscribed => (SessionPhase::Listening, SessionAction::AwaitMessage),
            SessionEvent::SubscribeFailed => (SessionPhase::Subscribing, SessionAction::WaitThenSubscribe(retry_secs)),
            _ => (SessionPhase::Subscribing, SessionAction::Ignore),
        },
        SessionPhase::Listening => match event {
            SessionEvent::Received(bytes) => (SessionPhase::Listening, SessionAction::Deliver(payload_text(bytes.as_slice()))),
            SessionEvent::ReceiveFailed => (SessionPhase::Closed, SessionAction::Stop),
            _ => (SessionPhase::Listening, SessionAction::Ignore),
        },
        SessionPhase::Closed => (SessionPhase::Closed, SessionAction::Ignore),
    }
}

/// A closed session stays closed, whatever happens after.
pub proof fn lemma_closed_session_stays_closed(events: Seq<SessionEvent>)
    ensures
        phase_after(SessionPhase::Closed, events) == SessionPhase::Closed,
    decreases events.len(),
{
    if events.len() > 0 {
        lemma_closed_session_stays_closed(events.drop_first());
    }
}

/// A session that has subscribed never subscribes again.
pub proof fn lemma_listening_never_resubscribes(events: Seq<SessionEvent>)
    ensures
        phase_after(SessionPhase::Listening, events) != SessionPhase::Subscribing,
    decreases events.len(),
{
    if events.len() > 0 {
        let next = next_phase(SessionPhase::Listening, events[0]);
        if next == SessionPhase::Closed {
            lemma_closed_session_stays_closed(events.drop_first());
        } else {
            lemma_listening_never_resubscribes(events.drop_first());
        }
    }
}

/// A session keeps subscribing exactly until a subscription succeeds.
pub proof fn lemma_subscribing_until_subscribed(events: Seq<SessionEvent>)
    ensures
        (phase_after(SessionPhase::Subscribing, events) == SessionPhase::Subscribing)
            <==> (forall|i: int| 0 <= i < events.len() ==> events[i] != SessionEvent::Subscribed),
    decreases events.len(),
{
    if events.len() > 0 {
        let rest = events.drop_first();
        lemma_subscribing_until_subscribed(rest);
        if events[0] == SessionEvent::Subscribed {
            lemma_listening_never_resubscribes(rest);
        } else {
            assert forall|i: int| 0 <= i < events.len() && events[i] == SessionEvent::Subscribed implies
                0 <= i - 1 < rest.len() && rest[i - 1] == SessionEvent::Subscribed by {
            }
            assert forall|i: int| 0 <= i < rest.len() && rest[i] == SessionEvent::Subscribed implies
                events[i + 1] == SessionEvent::Subscribed by {
            }
        }
    }
}

/// A listening session stays listening whatever message arrives: the
/// message is delivered and the next one is awaited.
pub proof fn lemma_receiving_keeps_listening(payload: Vec<u8>)
    ensures
        next_phase(SessionPhase::Listening, SessionEvent::Received(payload)) == SessionPhase::Listening,
{
}

/// A session becomes closed only when receiving fails while it listens.
pub proof fn lemma_closed_only_by_receive_failure(phase: SessionPhase, event: SessionEvent)
    ensures
        next_phase(phase, event) == SessionPhase::Closed ==> (phase == SessionPhase::Closed || (
            phase == SessionPhase::Listening && event == SessionEvent::ReceiveFailed)),
        phase == SessionPhase::Listening && event == SessionEvent::ReceiveFailed ==> next_phase(phase, event)
            == SessionPhase::Closed,
{
}

/// A listening session that only receives messages keeps listening, however
/// many arrive.
pub proof fn lemma_messages_keep_session_listening(events: Seq<SessionEvent>)
    requires
        forall|i: int| 0 <= i < events.len() ==> events[i] is Received,
    ensures
        phase_after(SessionPhase::Listening, events) == SessionPhase::Listening,
    decreases events.len(),
{
    if events.len() > 0 {
        let rest = events.drop_first();
        assert forall|i: int| 0 <= i < rest.len() implies rest[i] is Received by {
            assert(rest[i] == events[i + 1]);
        }
        lemma_messages_keep_session_listening(rest);
    }
}

} // verus!
