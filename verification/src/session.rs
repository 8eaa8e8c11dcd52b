//! The event-stream session client's state machine.
//!
//! One logical websocket connection at a time: connect, receive a welcome
//! frame that issues the session id, reconcile subscriptions, then forward
//! notifications in arrival order. A close frame or a reset without a close
//! handshake is recoverable — the loop reconnects with the current connect
//! URL and never treats either as a failure. A revocation, a malformed
//! frame or any other transport error is fatal: the whole subsystem is torn
//! down rather than left running blind. The surrounding program owns the
//! socket and performs the actions; every decision is made here.

use vstd::prelude::*;
use crate::cache::{UserCache, UserRecord};
use crate::outbound;
use crate::upstream;

verus! {

/// One decoded frame from the event transport.
pub enum Frame {
    /// A welcome or reconnect control frame. Both carry the session data and
    /// the client handles them identically: adopt the session id, and keep a
    /// replacement connect URL — if one is present — for the next connection
    /// attempt only.
    Welcome { session_id: String, reconnect_url: Option<String> },
    /// One domain event: its server timestamp, the event rendered as one
    /// JSON value, and — when the event is a chat message — the chatter's
    /// user id. All plain values, fixed by the frame text.
    Notification { timestamp: String, event_json: String, chatter: Option<String> },
    /// Server-initiated termination of a subscription. Fatal by policy: a
    /// client that shrugged it off would be permanently blind.
    Revocation,
    /// A liveness frame; discarded.
    Keepalive,
}

/// What the socket handed the run loop.
pub enum SocketEvent {
    /// A text frame, holding one JSON envelope.
    Text(String),
    /// Any other frame (binary, ping, pong): ignored.
    Other,
    /// The peer closed the connection with a close frame.
    Closed,
    /// The connection was reset without a close handshake: recoverable, and
    /// never to be classified as fatal.
    Reset,
    /// Any other transport error.
    Failed,
}

/// Why the session client must stop.
#[derive(Debug)]
pub enum FatalError {
    /// A revocation notification arrived.
    Revoked,
    /// A text frame could not be decoded, or its event could not be
    /// re-encoded for the sink.
    MalformedFrame,
    /// The transport failed in a way that is neither a close nor a reset.
    Transport,
}

/// Connection phase of the session client.
#[derive(Clone, Copy, Debug, PartialEq, Eq, Structural)]
pub enum Phase {
    /// No live socket; the run loop will connect next.
    Disconnected,
    /// A connection attempt is under way.
    Connecting,
    /// The handshake succeeded; the first frame must be a welcome.
    AwaitingWelcome,
    /// A welcome was processed: subscriptions reconciled, events flowing.
    Active,
}

/// What the run loop must do after the client processed one input.
pub enum Action {
    /// Nothing; keep reading frames.
    Idle,
    /// A welcome was processed: list the enabled subscriptions bound to this
    /// session id and create the missing ones (see `registry`).
    Reconcile { session_id: String },
    /// Forward one event to the consumer (see `handle_notification`).
    Deliver { event_json: String, chatter: Option<String>, timestamp: String },
    /// Drop the socket and connect again with the current connect URL.
    Reconnect,
    /// Tear the whole subsystem down.
    Fail(FatalError),
}

/// The session client: everything it decides on lives in these four fields;
/// sockets, tokens and HTTP clients stay with the surrounding program.
pub struct EventWebsocketClient {
    /// The server-issued session id; unset until the first welcome.
    pub session_id: Option<String>,
    /// The URL the next connection attempt must use.
    pub connect_url: String,
    /// The chat targets (user ids) to keep subscribed.
    pub chats: Vec<String>,
    /// Where in the connection lifecycle the client stands.
    pub phase: Phase,
}

/// The client state after one frame is processed.
pub open spec fn step_state(pre: EventWebsocketClient, frame: Frame) -> EventWebsocketClient {
    match frame {
        Frame::Welcome { session_id, reconnect_url } => EventWebsocketClient {
            session_id: Some(session_id),
            connect_url: match reconnect_url {
                Some(url) => url,
                None => pre.connect_url,
            },
            chats: pre.chats,
            phase: Phase::Active,
        },
        _ => pre,
    }
}

/// The action one frame demands.
pub open spec fn step_action(frame: Frame) -> Action {
    match frame {
        Frame::Welcome { session_id, reconnect_url } => Action::Reconcile { session_id },
        Frame::Notification { timestamp, event_json, chatter } => Action::Deliver {
            event_json,
            chatter,
            timestamp,
        },
        Frame::Revocation => Action::Fail(FatalError::Revoked),
        Frame::Keepalive => Action::Idle,
    }
}

impl EventWebsocketClient {
    /// A client that will first connect to `connect_url` and keep `chats`
    /// subscribed.
    pub fn new(connect_url: String, chats: Vec<String>) -> (client: EventWebsocketClient)
        ensures
            client.session_id is None,
            client.connect_url == connect_url,
            client.chats == chats,
            client.phase == Phase::Disconnected,
    {
        EventWebsocketClient { session_id: None, connect_url, chats, phase: Phase::Disconnected }
    }

    /// A connection attempt starts: hand the loop the URL to dial. The URL
    /// may have been replaced by the previous session's welcome frame.
    pub fn begin_connect(&mut self) -> (url: String)
        ensures
            *final(self) == (EventWebsocketClient { phase: Phase::Connecting, ..*old(self) }),
            url == old(self).connect_url,
    {
        self.phase = Phase::Connecting;
        self.connect_url.clone()
    }

    /// The socket handshake succeeded; the first frame must be a welcome.
    pub fn on_connected(&mut self)
        ensures
            *final(self) == (EventWebsocketClient { phase: Phase::AwaitingWelcome, ..*old(self) }),
    {
        self.phase = Phase::AwaitingWelcome;
    }

    /// Process one welcome (or reconnect) control frame: adopt the session
    /// id, keep any replacement connect URL for the next attempt only — the
    /// current socket is not migrated — and ask the loop to reconcile
    /// subscriptions for the new session.
    pub fn process_welcome_message(
        &mut self,
        session_id: String,
        reconnect_url: Option<String>,
    ) -> (action: Action)
        ensures
            *final(self) == step_state(
                *old(self),
                Frame::Welcome { session_id, reconnect_url },
            ),
            action == step_action(Frame::Welcome { session_id, reconnect_url }),
    {
        self.session_id = Some(session_id.clone());
        match reconnect_url {
            Some(url) => {
                self.connect_url = url;
            },
            None => {},
        }
        self.phase = Phase::Active;
        Action::Reconcile { session_id }
    }

    /// Process one decoded frame: welcomes reconfigure the session,
    /// notifications are delivered in arrival order with the client left
    /// untouched, keepalives are discarded, and a revocation is fatal.
    pub fn process_message(&mut self, frame: Frame) -> (action: Action)
        ensures
            *final(self) == step_state(*old(self), frame),
            action == step_action(frame),
    {
        match frame {
            Frame::Welcome { session_id, reconnect_url } => self.process_welcome_message(
                session_id,
                reconnect_url,
            ),
            Frame::Notification { timestamp, event_json, chatter } => Action::Deliver {
                event_json,
                chatter,
                timestamp,
            },
            Frame::Revocation => Action::Fail(FatalError::Revoked),
            Frame::Keepalive => Action::Idle,
        }
    }

    /// Drive the state machine with one socket event. Text frames are
    /// decoded and processed; a close or a bare reset sends the loop back to
    /// connecting — recoverable, never a failure — while any other
    /// transport error, and any undecodable frame, is fatal.
    pub fn on_socket_event(&mut self, event: SocketEvent) -> (action: Action)
        ensures
            match event {
                SocketEvent::Text(text) => match upstream::parsed_frame(text@) {
                    Ok(frame) => *final(self) == step_state(*old(self), frame) && action
                        == step_action(frame),
                    Err(_) => *final(self) == *old(self) && action == Action::Fail(
                        FatalError::MalformedFrame,
                    ),
                },
                SocketEvent::Other => *final(self) == *old(self) && action == Action::Idle,
                SocketEvent::Closed => *final(self) == (EventWebsocketClient {
                    phase: Phase::Disconnected,
                    ..*old(self)
                }) && action == Action::Reconnect,
                SocketEvent::Reset => *final(self) == (EventWebsocketClient {
                    phase: Phase::Disconnected,
                    ..*old(self)
                }) && action == Action::Reconnect,
                SocketEvent::Failed => *final(self) == *old(self) && action == Action::Fail(
                    FatalError::Transport,
                ),
            },
    {
        match event {
            SocketEvent::Text(text) => match upstream::parse_frame(text.as_str()) {
                Ok(frame) => self.process_message(frame),
                Err(_) => Action::Fail(FatalError::MalformedFrame),
            },
            SocketEvent::Other => Action::Idle,
            SocketEvent::Closed => {
                self.phase = Phase::Disconnected;
                Action::Reconnect
            },
            SocketEvent::Reset => {
                self.phase = Phase::Disconnected;
                Action::Reconnect
            },
            SocketEvent::Failed => Action::Fail(FatalError::Transport),
        }
    }
}

/// A revocation is never silently ignored: processing it always demands that
/// the run loop stop with the revocation error, whatever state the client
/// was in.
pub proof fn lemma_revocation_is_fatal(pre: EventWebsocketClient)
    ensures
        step_action(Frame::Revocation) == Action::Fail(FatalError::Revoked),
        step_state(pre, Frame::Revocation) == pre,
{
}

/// The result of handling one notification event.
pub enum NotificationOutcome {
    /// The sink messages are ready: the event message, then — when the
    /// chatter was cached and fresh — the user message.
    Ready { messages: Vec<String> },
    /// The event message is ready, but the chatter must be fetched remotely
    /// and recorded with `record_user`. `known` tells a first fetch from a
    /// refetch after expiry.
    NeedsUser { messages: Vec<String>, user_id: String, known: bool },
}

/// Handle one delivered notification: exactly one event message for the
/// sink, holding this event's JSON and timestamp; and when the event is a
/// chat message, resolve its chatter through the cache — the user message
/// follows immediately from a fresh entry, or the loop is asked to fetch.
pub fn handle_notification(
    cache: &UserCache,
    event_json: &str,
    chatter: &Option<String>,
    timestamp: &str,
    now: u64,
) -> (outcome: NotificationOutcome)
    requires
        cache.wf(),
    ensures
        match *chatter {
            Option::None => (outcome matches NotificationOutcome::Ready { messages }
                && messages@.len() == 1
                && messages@[0]@ == outbound::event_envelope(event_json@, timestamp@)),
            Option::Some(id) => if cache.fresh_at(id@, now) {
                outcome matches NotificationOutcome::Ready { messages }
                    && messages@.len() == 2
                    && messages@[0]@ == outbound::event_envelope(event_json@, timestamp@)
                    && messages@[1]@ == outbound::user_envelope(cache.user_for(id@))
            } else {
                outcome matches NotificationOutcome::NeedsUser { messages, user_id, known }
                    && messages@.len() == 1
                    && messages@[0]@ == outbound::event_envelope(event_json@, timestamp@)
                    && user_id == id
                    && known == cache.contains_user(id@)
            },
        },
{
    let mut messages: Vec<String> = Vec::new();
    messages.push(outbound::encode_event_message(event_json, timestamp));
    match chatter {
        None => NotificationOutcome::Ready { messages },
        Some(user_id) => match cache.lookup(user_id, now) {
            Some(user) => {
                let tail = outbound::encode_user_message(user);
                messages.push(tail);
                NotificationOutcome::Ready { messages }
            },
            None => {
                let known = cache.contains(user_id);
                NotificationOutcome::NeedsUser { messages, user_id: user_id.clone(), known }
            },
        },
    }
}

/// Record a freshly fetched user at `now` — superseding any stale entry for
/// that id and touching no other — and produce the sink message announcing
/// it.
pub fn record_user(cache: &mut UserCache, user: UserRecord, now: u64) -> (message: String)
    requires
        old(cache).wf(),
    ensures
        final(cache).wf(),
        final(cache).ttl() == old(cache).ttl(),
        final(cache).contains_user(user.id@),
        final(cache).user_for(user.id@) == user,
        final(cache).fetch_time(user.id@) == now,
        forall|other: Seq<char>|
            other != user.id@ ==> final(cache).contains_user(other) == old(cache).contains_user(
                other,
            ),
        forall|other: Seq<char>|
            other != user.id@ && old(cache).contains_user(other) ==> final(cache).user_for(other)
                == old(cache).user_for(other) && final(cache).fetch_time(other) == old(
                cache,
            ).fetch_time(other),
        message@ == outbound::user_envelope(user),
{
    let message = outbound::encode_user_message(&user);
    let id = user.id.clone();
    cache.insert(id, user, now);
    message
}

} // verus!
