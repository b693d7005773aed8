use voxium::frames::{
    auth_heartbeat_frame, avatar_url, heartbeat_frame, identify_frame, init_frame,
    nonce_proof_frame, qr_data_uri, ra_url, voice_join_frame, voice_leave_frame,
};
use base64::Engine;
use voxium::text::{json_escape_str, trim_spaces, trim_token_text, u64_to_dec};

#[test]
fn decimal_rendering_is_exact() {
    assert_eq!(u64_to_dec(0), "0");
    assert_eq!(u64_to_dec(7), "7");
    assert_eq!(u64_to_dec(41250), "41250");
    assert_eq!(u64_to_dec(u64::MAX), "18446744073709551615");
}

#[test]
fn json_escaping_is_exact() {
    assert_eq!(json_escape_str("plain"), "plain");
    assert_eq!(json_escape_str("a\"b"), "a\\\"b");
    assert_eq!(json_escape_str("a\\b"), "a\\\\b");
    assert_eq!(json_escape_str("a\nb\tc\rd"), "a\\nb\\tc\\rd");
    assert_eq!(json_escape_str("\u{1}\u{1f}"), "\\u0001\\u001f");
}

#[test]
fn heartbeat_frames_are_exact() {
    assert_eq!(heartbeat_frame(None), "{\"op\":1,\"d\":null}");
    assert_eq!(heartbeat_frame(Some(123)), "{\"op\":1,\"d\":123}");
    assert_eq!(auth_heartbeat_frame(), "{\"op\":\"heartbeat\"}");
}

#[test]
fn voice_state_frames_are_exact() {
    assert_eq!(
        voice_join_frame("g1", "c1"),
        "{\"op\":4,\"d\":{\"guild_id\":\"g1\",\"channel_id\":\"c1\",\"self_mute\":false,\"self_deaf\":false,\"self_video\":false}}"
    );
    assert_eq!(
        voice_leave_frame("g1"),
        "{\"op\":4,\"d\":{\"guild_id\":\"g1\",\"channel_id\":null,\"self_mute\":false,\"self_deaf\":false}}"
    );
    // embedded text is escaped
    assert!(voice_join_frame("g\"1", "c1").contains("\"guild_id\":\"g\\\"1\""));
}

#[test]
fn identify_frame_embeds_escaped_token() {
    let f = identify_frame("tok\"en");
    assert!(f.starts_with("{\"op\":2,\"d\":{\"token\":\"tok\\\"en\","));
    assert!(f.contains("\"capabilities\":30717"));
    assert!(f.ends_with("\"api_code_version\":0}}}"));
    // the identify frame parses as JSON and carries the token
    let v: serde_json::Value = serde_json::from_str(&f).unwrap();
    assert_eq!(v["op"], 2);
    assert_eq!(v["d"]["token"].as_str(), Some("tok\"en"));
}

#[test]
fn auth_frames_are_exact() {
    assert_eq!(
        init_frame("KEY+b64/="),
        "{\"op\":\"init\",\"encoded_public_key\":\"KEY+b64/=\"}"
    );
    assert_eq!(
        nonce_proof_frame("PROOF"),
        "{\"op\":\"nonce_proof\",\"proof\":\"PROOF\"}"
    );
}

#[test]
fn urls_are_exact() {
    assert_eq!(ra_url("fp123"), "https://discord.com/ra/fp123");
    assert_eq!(
        avatar_url("u1", "hash"),
        "https://cdn.discordapp.com/avatars/u1/hash.png?size=64"
    );
    let png = [137u8, 80, 78, 71];
    let expected = format!(
        "data:image/png;base64,{}",
        base64::engine::general_purpose::STANDARD.encode(png)
    );
    assert_eq!(qr_data_uri(&png), expected);
}

#[test]
fn token_trimming_strips_nul_padding_then_whitespace() {
    assert_eq!(trim_token_text("\u{0}\u{0} tok \n\u{0}"), "tok");
    assert_eq!(trim_token_text("token"), "token");
    assert_eq!(trim_token_text("  \u{0}  "), "\u{0}");
    assert_eq!(trim_token_text("\u{0}\u{0}"), "");
    assert_eq!(trim_spaces("  tok  "), "tok");
    assert_eq!(trim_spaces("\u{0}tok"), "\u{0}tok");
}
