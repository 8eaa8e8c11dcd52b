//! Outbound sink messages, encoded exactly.
//!
//! The session client forwards two kinds of JSON text messages to the
//! downstream relay: one per received event, one per resolved user. The
//! envelopes are fixed; only the embedded event JSON (already encoded
//! upstream) and the quoted string fields vary. String quoting follows the
//! JSON grammar: quote and backslash are escaped, control characters become
//! their short escapes or a `\u00XX` form, everything else passes through.

use vstd::prelude::*;
use vstd::std_specs::iter::IteratorSpec;
use vstd::string::StringExecFns;
use crate::cache::UserRecord;

verus! {

/// The hexadecimal digit for `n` in `0..16`, lower case.
pub open spec fn hex_digit(n: int) -> char {
    if n == 0 {
        '0'
    } else if n == 1 {
        '1'
    } else if n == 2 {
        '2'
    } else if n == 3 {
        '3'
    } else if n == 4 {
        '4'
    } else if n == 5 {
        '5'
    } else if n == 6 {
        '6'
    } else if n == 7 {
        '7'
    } else if n == 8 {
        '8'
    } else if n == 9 {
        '9'
    } else if n == 10 {
        'a'
    } else if n == 11 {
        'b'
    } else if n == 12 {
        'c'
    } else if n == 13 {
        'd'
    } else if n == 14 {
        'e'
    } else {
        'f'
    }
}

/// How one character appears inside a JSON string literal.
pub open spec fn escape_char(c: char) -> Seq<char> {
    if c == '"' {
        seq!['\\', '"']
    } else if c == '\\' {
        seq!['\\', '\\']
    } else if c == '\n' {
        seq!['\\', 'n']
    } else if c == '\r' {
        seq!['\\', 'r']
    } else if c == '\t' {
        seq!['\\', 't']
    } else if c == '\u{8}' {
        seq!['\\', 'b']
    } else if c == '\u{c}' {
        seq!['\\', 'f']
    } else if (c as u32) < 32 {
        seq!['\\', 'u', '0', '0', hex_digit((c as u32 / 16) as int), hex_digit((c as u32 % 16) as int)]
    } else {
        seq![c]
    }
}

/// A whole string escaped character by character, in order.
pub open spec fn escape_string(s: Seq<char>) -> Seq<char>
    decreases s.len(),
{
    if s.len() == 0 {
        Seq::empty()
    } else {
        escape_string(s.drop_last()) + escape_char(s.last())
    }
}

/// A JSON string literal: the escaped characters between two quotes.
pub open spec fn json_string(s: Seq<char>) -> Seq<char> {
    seq!['"'] + escape_string(s) + seq!['"']
}

/// The event message the sink receives for one notification: the event's own
/// JSON and the server timestamp under a fixed envelope, keys in sorted
/// order.
pub open spec fn event_envelope(event_json: Seq<char>, timestamp: Seq<char>) -> Seq<char> {
    "{\"event\":"@ + event_json + ",\"timestamp\":"@ + json_string(timestamp)
        + ",\"type\":\"twitch-event\"}"@
}

/// The user message the sink receives once a chat user is resolved: the
/// user's own JSON (as fetched and encoded upstream) under the fixed
/// envelope.
pub open spec fn user_envelope(user: UserRecord) -> Seq<char> {
    "{\"type\":\"twitch-user\",\"user\":"@ + user.json@ + "}"@
}

fn hex_digit_char(n: u32) -> (c: char)
    requires
        n < 16,
    ensures
        c == hex_digit(n as int),
{
    if n == 0 {
        '0'
    } else if n == 1 {
        '1'
    } else if n == 2 {
        '2'
    } else if n == 3 {
        '3'
    } else if n == 4 {
        '4'
    } else if n == 5 {
        '5'
    } else if n == 6 {
        '6'
    } else if n == 7 {
        '7'
    } else if n == 8 {
        '8'
    } else if n == 9 {
        '9'
    } else if n == 10 {
        'a'
    } else if n == 11 {
        'b'
    } else if n == 12 {
        'c'
    } else if n == 13 {
        'd'
    } else if n == 14 {
        'e'
    } else {
        'f'
    }
}

/// The characters of `s`, in order.
pub(crate) fn chars_of(s: &str) -> (v: Vec<char>)
    ensures
        v@ == s@,
{
    let mut it = s.chars();
    let mut v: Vec<char> = Vec::new();
    loop
        invariant
            v@ + it.remaining() == s@,
            v@.len() <= s@.len(),
        decreases s@.len() - v@.len(),
    {
        match it.next() {
            Some(c) => v.push(c),
            None => {
                proof {
                    assert(v@ =~= s@);
                }
                return v;
            },
        }
    }
}

fn push_escaped(out: &mut Vec<char>, c: char)
    ensures
        final(out)@ == old(out)@ + escape_char(c),
{
    if c == '"' {
        out.push('\\');
        out.push('"');
    } else if c == '\\' {
        out.push('\\');
        out.push('\\');
    } else if c == '\n' {
        out.push('\\');
        out.push('n');
    } else if c == '\r' {
        out.push('\\');
        out.push('r');
    } else if c == '\t' {
        out.push('\\');
        out.push('t');
    } else if c == '\u{8}' {
        out.push('\\');
        out.push('b');
    } else if c == '\u{c}' {
        out.push('\\');
        out.push('f');
    } else if (c as u32) < 32 {
        out.push('\\');
        out.push('u');
        out.push('0');
        out.push('0');
        out.push(hex_digit_char(c as u32 / 16));
        out.push(hex_digit_char(c as u32 % 16));
    } else {
        out.push(c);
    }
    proof {
        assert(out@ =~= old(out)@ + escape_char(c));
    }
}

/// The characters of the JSON string literal for `s`.
fn json_quote_chars(s: &str) -> (v: Vec<char>)
    ensures
        v@ == json_string(s@),
{
    let cs = chars_of(s);
    let mut v: Vec<char> = Vec::new();
    v.push('"');
    let mut i: usize = 0;
    while i < cs.len()
        invariant
            i <= cs@.len(),
            cs@ == s@,
            v@ == seq!['"'] + escape_string(cs@.take(i as int)),
        decreases cs@.len() - i,
    {
        push_escaped(&mut v, cs[i]);
        proof {
            let upto = cs@.take(i + 1);
            assert(upto.drop_last() =~= cs@.take(i as int));
            assert(upto.last() == cs@[i as int]);
            assert(v@ =~= seq!['"'] + escape_string(upto));
        }
        i += 1;
    }
    v.push('"');
    proof {
        assert(cs@.take(cs@.len() as int) =~= cs@);
        assert(v@ =~= json_string(s@));
    }
    v
}

/// Relies on String implementing FromIterator over chars: collecting an
/// iterator of characters concatenates exactly those characters in order.
#[verifier::external_body]
pub(crate) fn chars_to_string(v: &Vec<char>) -> (s: String)
    ensures
        s@ == v@,
{
    v.iter().collect()
}

/// A string holding exactly the JSON string literal for `s`.
pub fn json_quote(s: &str) -> (quoted: String)
    ensures
        quoted@ == json_string(s@),
{
    let v = json_quote_chars(s);
    chars_to_string(&v)
}

/// The outbound message for one notification: `event_json` (the event as
/// encoded upstream) and the server timestamp under the fixed event
/// envelope.
pub fn encode_event_message(event_json: &str, timestamp: &str) -> (msg: String)
    ensures
        msg@ == event_envelope(event_json@, timestamp@),
{
    let mut msg = String::new();
    msg.append("{\"event\":");
    msg.append(event_json);
    msg.append(",\"timestamp\":");
    let quoted = json_quote(timestamp);
    msg.append(quoted.as_str());
    msg.append(",\"type\":\"twitch-event\"}");
    proof {
        assert(msg@ =~= event_envelope(event_json@, timestamp@));
    }
    msg
}

/// The outbound message announcing one resolved user.
pub fn encode_user_message(user: &UserRecord) -> (msg: String)
    ensures
        msg@ == user_envelope(*user),
{
    let mut msg = String::new();
    msg.append("{\"type\":\"twitch-user\",\"user\":");
    msg.append(user.json.as_str());
    msg.append("}");
    proof {
        assert(msg@ =~= user_envelope(*user));
    }
    msg
}

} // verus!
