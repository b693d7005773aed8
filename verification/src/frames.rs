//! Outbound wire text: the JSON frames both sockets send, and the URLs the
//! flows hand out. Every builder is proved to produce exactly the text its
//! specification describes.

use vstd::prelude::*;

use crate::crypto;
use crate::text::{dec_spec, json_escape, json_escape_str, u64_to_dec};

verus! {

/// The identify frame: credentials and fixed client metadata.
pub open spec fn identify_frame_spec(token: Seq<char>) -> Seq<char> {
    "{\"op\":2,\"d\":{\"token\":\""@ + json_escape(token)
        + "\",\"capabilities\":30717,\"properties\":{\"os\":\"Windows\",\"browser\":\"Chrome\",\"device\":\"\",\"system_locale\":\"fr-FR\",\"browser_user_agent\":\"Mozilla/5.0 (Windows NT 10.0; Win64; x64) AppleWebKit/537.36 (KHTML, like Gecko) Chrome/131.0.0.0 Safari/537.36\",\"browser_version\":\"131.0.0.0\",\"os_version\":\"10\",\"referrer\":\"\",\"referring_domain\":\"\",\"referrer_current\":\"\",\"referring_domain_current\":\"\",\"release_channel\":\"stable\",\"client_build_number\":366068,\"client_event_source\":null},\"presence\":{\"activities\":[],\"status\":\"online\",\"since\":0,\"afk\":false},\"compress\":false,\"client_state\":{\"guild_versions\":{},\"highest_last_message_id\":\"0\",\"read_state_version\":0,\"user_guild_settings_version\":-1,\"user_settings_version\":-1,\"private_channels_version\":\"0\",\"api_code_version\":0}}}"@
}

pub fn identify_frame(token: &str) -> (r: String)
    ensures
        r@ == identify_frame_spec(token@),
{
    let mut s = String::from_str("{\"op\":2,\"d\":{\"token\":\"");
    let esc = json_escape_str(token);
    s.append(esc.as_str());
    s.append(
        "\",\"capabilities\":30717,\"properties\":{\"os\":\"Windows\",\"browser\":\"Chrome\",\"device\":\"\",\"system_locale\":\"fr-FR\",\"browser_user_agent\":\"Mozilla/5.0 (Windows NT 10.0; Win64; x64) AppleWebKit/537.36 (KHTML, like Gecko) Chrome/131.0.0.0 Safari/537.36\",\"browser_version\":\"131.0.0.0\",\"os_version\":\"10\",\"referrer\":\"\",\"referring_domain\":\"\",\"referrer_current\":\"\",\"referring_domain_current\":\"\",\"release_channel\":\"stable\",\"client_build_number\":366068,\"client_event_source\":null},\"presence\":{\"activities\":[],\"status\":\"online\",\"since\":0,\"afk\":false},\"compress\":false,\"client_state\":{\"guild_versions\":{},\"highest_last_message_id\":\"0\",\"read_state_version\":0,\"user_guild_settings_version\":-1,\"user_settings_version\":-1,\"private_channels_version\":\"0\",\"api_code_version\":0}}}",
    );
    s
}

/// The heartbeat frame carries the last-seen sequence number, or null.
pub open spec fn heartbeat_frame_spec(sequence: Option<u64>) -> Seq<char> {
    "{\"op\":1,\"d\":"@ + (match sequence {
        Some(n) => dec_spec(n as nat),
        None => "null"@,
    }) + "}"@
}

pub fn heartbeat_frame(sequence: Option<u64>) -> (r: String)
    ensures
        r@ == heartbeat_frame_spec(sequence),
{
    let mut s = String::from_str("{\"op\":1,\"d\":");
    match sequence {
        Some(n) => {
            let d = u64_to_dec(n);
            s.append(d.as_str());
        },
        None => {
            s.append("null");
        },
    }
    s.append("}");
    s
}

/// The voice-state frame that joins a channel.
pub open spec fn voice_join_frame_spec(guild_id: Seq<char>, channel_id: Seq<char>) -> Seq<char> {
    "{\"op\":4,\"d\":{\"guild_id\":\""@ + json_escape(guild_id) + "\",\"channel_id\":\""@
        + json_escape(channel_id)
        + "\",\"self_mute\":false,\"self_deaf\":false,\"self_video\":false}}"@
}

pub fn voice_join_frame(guild_id: &str, channel_id: &str) -> (r: String)
    ensures
        r@ == voice_join_frame_spec(guild_id@, channel_id@),
{
    let mut s = String::from_str("{\"op\":4,\"d\":{\"guild_id\":\"");
    let g = json_escape_str(guild_id);
    s.append(g.as_str());
    s.append("\",\"channel_id\":\"");
    let c = json_escape_str(channel_id);
    s.append(c.as_str());
    s.append("\",\"self_mute\":false,\"self_deaf\":false,\"self_video\":false}}");
    s
}

/// The voice-state frame that leaves the guild's channel (channel null).
pub open spec fn voice_leave_frame_spec(guild_id: Seq<char>) -> Seq<char> {
    "{\"op\":4,\"d\":{\"guild_id\":\""@ + json_escape(guild_id)
        + "\",\"channel_id\":null,\"self_mute\":false,\"self_deaf\":false}}"@
}

pub fn voice_leave_frame(guild_id: &str) -> (r: String)
    ensures
        r@ == voice_leave_frame_spec(guild_id@),
{
    let mut s = String::from_str("{\"op\":4,\"d\":{\"guild_id\":\"");
    let g = json_escape_str(guild_id);
    s.append(g.as_str());
    s.append("\",\"channel_id\":null,\"self_mute\":false,\"self_deaf\":false}}");
    s
}

/// The remote-auth heartbeat frame.
pub open spec fn auth_heartbeat_frame_spec() -> Seq<char> {
    "{\"op\":\"heartbeat\"}"@
}

pub fn auth_heartbeat_frame() -> (r: String)
    ensures
        r@ == auth_heartbeat_frame_spec(),
{
    String::from_str("{\"op\":\"heartbeat\"}")
}

/// The remote-auth init frame announcing the session's public key.
pub open spec fn init_frame_spec(public_key_b64: Seq<char>) -> Seq<char> {
    "{\"op\":\"init\",\"encoded_public_key\":\""@ + json_escape(public_key_b64) + "\"}"@
}

pub fn init_frame(public_key_b64: &str) -> (r: String)
    ensures
        r@ == init_frame_spec(public_key_b64@),
{
    let mut s = String::from_str("{\"op\":\"init\",\"encoded_public_key\":\"");
    let k = json_escape_str(public_key_b64);
    s.append(k.as_str());
    s.append("\"}");
    s
}

/// The remote-auth nonce-proof frame.
pub open spec fn nonce_proof_frame_spec(proof_text: Seq<char>) -> Seq<char> {
    "{\"op\":\"nonce_proof\",\"proof\":\""@ + json_escape(proof_text) + "\"}"@
}

pub fn nonce_proof_frame(proof_text: &str) -> (r: String)
    ensures
        r@ == nonce_proof_frame_spec(proof_text@),
{
    let mut s = String::from_str("{\"op\":\"nonce_proof\",\"proof\":\"");
    let p = json_escape_str(proof_text);
    s.append(p.as_str());
    s.append("\"}");
    s
}

/// The scannable login URI built from a handshake fingerprint.
pub open spec fn ra_url_spec(fingerprint: Seq<char>) -> Seq<char> {
    "https://discord.com/ra/"@ + fingerprint
}

pub fn ra_url(fingerprint: &str) -> (r: String)
    ensures
        r@ == ra_url_spec(fingerprint@),
{
    let mut s = String::from_str("https://discord.com/ra/");
    s.append(fingerprint);
    s
}

/// The avatar image URL for a user and avatar hash.
pub open spec fn avatar_url_spec(user_id: Seq<char>, avatar_hash: Seq<char>) -> Seq<char> {
    "https://cdn.discordapp.com/avatars/"@ + user_id + "/"@ + avatar_hash + ".png?size=64"@
}

pub fn avatar_url(user_id: &str, avatar_hash: &str) -> (r: String)
    ensures
        r@ == avatar_url_spec(user_id@, avatar_hash@),
{
    let mut s = String::from_str("https://cdn.discordapp.com/avatars/");
    s.append(user_id);
    s.append("/");
    s.append(avatar_hash);
    s.append(".png?size=64");
    s
}

/// A PNG image as a base64 data URI.
pub open spec fn qr_data_uri_spec(png: Seq<u8>) -> Seq<char> {
    "data:image/png;base64,"@ + crypto::b64_standard_of(png)
}

pub fn qr_data_uri(png: &[u8]) -> (r: String)
    ensures
        r@ == qr_data_uri_spec(png@),
{
    let mut s = String::from_str("data:image/png;base64,");
    let b = crypto::b64_encode_standard(png);
    s.append(b.as_str());
    s
}

} // verus!
