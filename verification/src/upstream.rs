//! The trusted boundary to the platform SDK and the JSON encoder.
//!
//! Everything the verified core needs from `twitch_api` and `serde_json`
//! passes through `parse_frame`: one text frame in, one frame of plain
//! values out. Its contract is believed, not proved, and is kept to what
//! the SDK's source plainly shows; every field of the result is a function
//! of the frame text alone, so the single name `parsed_frame` covers it.

use vstd::prelude::*;
use crate::session::Frame;
use twitch_api::eventsub::Event as SdkEvent;
use twitch_api::eventsub::Event::ChannelChatMessageV1 as ChatV1;
use twitch_api::eventsub::EventsubWebsocketData::{
    Notification as WsNotification, Reconnect as WsReconnect, Revocation as WsRevocation,
    Welcome as WsWelcome,
};
use twitch_api::eventsub::Message::Notification as MsgNotification;
use twitch_api::eventsub::Payload as SdkPayload;
use twitch_api::eventsub::SessionData;
use twitch_api::eventsub::PayloadParseError::MalformedEvent;

verus! {

/// The SDK's parse error for websocket frames, carried opaquely; the
/// verified caller maps it to the library's fatal-error type.
#[verifier::external_type_specification]
#[verifier::external_body]
pub struct ExPayloadParseError(twitch_api::eventsub::PayloadParseError);

/// What one text frame decodes to. The SDK's parser reads nothing but the
/// frame text, and the event's JSON rendering and chatter id are functions
/// of the parsed event, so the whole result — session data, timestamp,
/// event JSON, chatter — is a function of the text alone.
pub uninterp spec fn parsed_frame(text: Seq<char>) -> Result<
    Frame,
    twitch_api::eventsub::PayloadParseError,
>;

/// Relies on `twitch_api`'s `Event::parse_websocket` and on
/// `serde_json::to_string` over the parsed event. A welcome or reconnect
/// frame carries the session id and an optional replacement connect URL
/// (the two kinds have the same payload and the client treats them
/// identically); a notification carries the event rendered as one JSON
/// value, its server timestamp, and — for a chat-message event — the
/// chatter's user id; revocation and keepalive frames carry nothing the
/// core reads. Malformed text, and the (practically unreachable) failure to
/// re-encode a parsed event, are reported as errors.
#[verifier::external_body]
pub fn parse_frame(text: &str) -> (frame: Result<
    Frame,
    twitch_api::eventsub::PayloadParseError,
>)
    ensures
        frame == parsed_frame(text@),
{
    let sess = |s: SessionData| Frame::Welcome { session_id: s.id.to_string(), reconnect_url: s.reconnect_url.map(|u| u.to_string()) };
    match SdkEvent::parse_websocket(text)? {
        WsWelcome { payload: p, .. } => Ok(sess(p.session)),
        WsReconnect { payload: p, .. } => Ok(sess(p.session)),
        WsNotification { metadata: m, payload: e } => Ok(Frame::Notification { timestamp: m.message_timestamp.to_string(), event_json: serde_json::to_string(&e).map_err(|_| MalformedEvent)?, chatter: match &e { ChatV1(SdkPayload { message: MsgNotification(n), .. }) => Some(n.chatter_user_id.to_string()), _ => None } }),
        WsRevocation { .. } => Ok(Frame::Revocation),
        _ => Ok(Frame::Keepalive),
    }
}

} // verus!
