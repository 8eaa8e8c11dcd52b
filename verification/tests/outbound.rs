use webstreamer::cache::UserRecord;
use webstreamer::outbound::{encode_event_message, encode_user_message, json_quote};

#[test]
fn quoting_passes_plain_text_through() {
    assert_eq!(json_quote("hello"), "\"hello\"".to_string());
    assert_eq!(json_quote(""), "\"\"".to_string());
}

#[test]
fn quoting_escapes_quotes_backslashes_and_controls() {
    assert_eq!(
        json_quote("a\"b\\c\nd\re\tf"),
        "\"a\\\"b\\\\c\\nd\\re\\tf\"".to_string()
    );
    assert_eq!(json_quote("\u{8}\u{c}"), "\"\\b\\f\"".to_string());
    assert_eq!(json_quote("\u{1}\u{1f}"), "\"\\u0001\\u001f\"".to_string());
}

#[test]
fn quoting_keeps_multibyte_characters() {
    assert_eq!(json_quote("héllo ☃"), "\"héllo ☃\"".to_string());
}

#[test]
fn event_message_has_the_fixed_envelope() {
    let msg = encode_event_message("{\"a\":1}", "2023-11-06T18:11:47Z");
    assert_eq!(
        msg,
        "{\"event\":{\"a\":1},\"timestamp\":\"2023-11-06T18:11:47Z\",\"type\":\"twitch-event\"}"
            .to_string()
    );
}

#[test]
fn user_message_has_the_fixed_envelope() {
    // The user's own JSON — whatever fields the directory returned — is
    // embedded untouched under the fixed envelope.
    let user = UserRecord {
        id: "4145994".to_string(),
        json: "{\"display_name\":\"Viewer32\",\"id\":\"4145994\",\"login\":\"viewer32\",\"profile_image_url\":\"https://example.invalid/a.png\"}".to_string(),
    };
    let msg = encode_user_message(&user);
    assert_eq!(
        msg,
        "{\"type\":\"twitch-user\",\"user\":{\"display_name\":\"Viewer32\",\"id\":\"4145994\",\"login\":\"viewer32\",\"profile_image_url\":\"https://example.invalid/a.png\"}}"
            .to_string()
    );
}
