//! Inbound wire text: decoding the JSON frames both sockets receive into the
//! plain events the state machines interpret. Every decoder carries a full
//! contract over the named JSON lookups; malformed text and unknown ops
//! decode to an ignored event, so the session continues past them.

use vstd::prelude::*;

use crate::frames::avatar_url_spec;
use crate::gateway::{opt_view, GatewayEvent, GatewayFrame};
use crate::jsonv::{
    json_has_field, json_has_field_of, json_str_field, json_str_field2, json_str_field2_of,
    json_str_field3, json_str_field3_of, json_str_field4, json_str_field4_of, json_str_field_of,
    json_u64_field, json_u64_field2, json_u64_field2_of, json_u64_field_of, oseq_or_empty,
};
use crate::presence::VoiceParticipant;
use crate::qr_flow::AuthEvent;
use crate::text::str_eq;

verus! {

/// The fields of a voice-state update that feed the presence cache.
pub struct VoiceStateFields {
    pub guild_id: String,
    pub channel_id: Option<String>,
    pub user_id: String,
    pub nick: Option<String>,
    pub global_name: Option<String>,
    pub username: Option<String>,
    pub avatar_hash: Option<String>,
}

/// A decoded inbound gateway frame: the event for the session state machine
/// and, for a voice-state update, the fields for the presence cache.
pub struct ParsedGatewayFrame {
    pub frame: GatewayFrame,
    pub voice_state: Option<VoiceStateFields>,
}

/// The ops the session interprets.
pub open spec fn gw_known_op(op: Option<u64>) -> bool {
    op == Some(0u64) || op == Some(7u64) || op == Some(9u64) || op == Some(10u64) || op == Some(
        11u64,
    )
}

/// The dispatch names the session interprets.
pub open spec fn gw_known_event_name(t: Option<Seq<char>>) -> bool {
    t == Some("READY"@) || t == Some("READY_SUPPLEMENTAL"@) || t == Some("VOICE_STATE_UPDATE"@)
        || t == Some("VOICE_SERVER_UPDATE"@)
}

/// The user a voice-state update names: its user_id member, else the nested
/// member identifier, else empty text.
pub open spec fn vsu_user_of(s: Seq<char>) -> Seq<char> {
    match json_str_field2_of(s, "d"@, "user_id"@) {
        Some(u) => u,
        None => oseq_or_empty(json_str_field4_of(s, "d"@, "member"@, "user"@, "id"@)),
    }
}

/// Whether the text is a voice-state update with an event body.
pub open spec fn is_vsu_frame(s: Seq<char>) -> bool {
    json_u64_field_of(s, "op"@) == Some(0u64) && json_str_field_of(s, "t"@) == Some(
        "VOICE_STATE_UPDATE"@,
    ) && json_has_field_of(s, "d"@)
}

fn str_field_or_empty(text: &str, key: &str) -> (r: String)
    ensures
        r@ == oseq_or_empty(json_str_field_of(text@, key@)),
{
    match json_str_field(text, key) {
        Some(s) => s,
        None => String::new(),
    }
}

fn str_field2_or_empty(text: &str, k1: &str, k2: &str) -> (r: String)
    ensures
        r@ == oseq_or_empty(json_str_field2_of(text@, k1@, k2@)),
{
    match json_str_field2(text, k1, k2) {
        Some(s) => s,
        None => String::new(),
    }
}

fn str_field4_or_empty(text: &str, k1: &str, k2: &str, k3: &str, k4: &str) -> (r: String)
    ensures
        r@ == oseq_or_empty(json_str_field4_of(text@, k1@, k2@, k3@, k4@)),
{
    match json_str_field4(text, k1, k2, k3, k4) {
        Some(s) => s,
        None => String::new(),
    }
}

proof fn lemma_name_from_text(name: Option<Seq<char>>, t: Seq<char>, lit: Seq<char>)
    requires
        t == oseq_or_empty(name),
        t == lit,
        lit.len() > 0,
    ensures
        name == Some(lit),
{
    match name {
        Some(v) => {},
        None => {
            assert(t.len() == 0);
        },
    }
}

/// Decode one inbound gateway frame.
#[verifier::rlimit(100)]
pub fn parse_gateway_frame(text: &str) -> (r: ParsedGatewayFrame)
    ensures
        r.frame.sequence == json_u64_field_of(text@, "s"@),
        !gw_known_op(json_u64_field_of(text@, "op"@)) ==> r.frame.event is Ignored,
        json_u64_field_of(text@, "op"@) == Some(10u64) ==> (r.frame.event
            matches GatewayEvent::Hello { heartbeat_interval_ms } && heartbeat_interval_ms
            == json_u64_field2_of(text@, "d"@, "heartbeat_interval"@)),
        json_u64_field_of(text@, "op"@) == Some(11u64) ==> r.frame.event is HeartbeatAck,
        json_u64_field_of(text@, "op"@) == Some(7u64) ==> r.frame.event is Reconnect,
        json_u64_field_of(text@, "op"@) == Some(9u64) ==> r.frame.event is InvalidSession,
        (json_u64_field_of(text@, "op"@) == Some(0u64) && !gw_known_event_name(
            json_str_field_of(text@, "t"@),
        )) ==> r.frame.event is Ignored,
        (json_u64_field_of(text@, "op"@) == Some(0u64) && json_str_field_of(text@, "t"@) == Some(
            "READY"@,
        )) ==> (r.frame.event matches GatewayEvent::Ready { session_id, user_id } && opt_view(
            session_id,
        ) == json_str_field2_of(text@, "d"@, "session_id"@) && opt_view(user_id)
            == json_str_field3_of(text@, "d"@, "user"@, "id"@)),
        (json_u64_field_of(text@, "op"@) == Some(0u64) && json_str_field_of(text@, "t"@) == Some(
            "READY_SUPPLEMENTAL"@,
        )) ==> r.frame.event is ReadySupplemental,
        (json_u64_field_of(text@, "op"@) == Some(0u64) && json_str_field_of(text@, "t"@) == Some(
            "VOICE_STATE_UPDATE"@,
        ) && !json_has_field_of(text@, "d"@)) ==> r.frame.event is Ignored,
        is_vsu_frame(text@) ==> (r.frame.event matches GatewayEvent::VoiceState { user_id }
            && user_id@ == vsu_user_of(text@)),
        r.voice_state is Some <==> is_vsu_frame(text@),
        r.voice_state matches Some(f) ==> (r.frame.event matches GatewayEvent::VoiceState {
            user_id,
        } && user_id == f.user_id && f.user_id@ == vsu_user_of(text@) && f.guild_id@
            == oseq_or_empty(json_str_field2_of(text@, "d"@, "guild_id"@)) && opt_view(
            f.channel_id,
        ) == json_str_field2_of(text@, "d"@, "channel_id"@) && opt_view(f.nick)
            == json_str_field3_of(text@, "d"@, "member"@, "nick"@) && opt_view(f.global_name)
            == json_str_field4_of(text@, "d"@, "member"@, "user"@, "global_name"@) && opt_view(
            f.username,
        ) == json_str_field4_of(text@, "d"@, "member"@, "user"@, "username"@) && opt_view(
            f.avatar_hash,
        ) == json_str_field4_of(text@, "d"@, "member"@, "user"@, "avatar"@)),
        (json_u64_field_of(text@, "op"@) == Some(0u64) && json_str_field_of(text@, "t"@) == Some(
            "VOICE_SERVER_UPDATE"@,
        ) && !json_has_field_of(text@, "d"@)) ==> r.frame.event is Ignored,
        (json_u64_field_of(text@, "op"@) == Some(0u64) && json_str_field_of(text@, "t"@) == Some(
            "VOICE_SERVER_UPDATE"@,
        ) && json_has_field_of(text@, "d"@)) ==> (r.frame.event
            matches GatewayEvent::VoiceServer { token, endpoint, guild_id } && opt_view(token)
            == json_str_field2_of(text@, "d"@, "token"@) && opt_view(endpoint)
            == json_str_field2_of(text@, "d"@, "endpoint"@) && opt_view(guild_id)
            == json_str_field2_of(text@, "d"@, "guild_id"@)),
{
    proof {
        reveal_strlit("READY");
        reveal_strlit("READY_SUPPLEMENTAL");
        reveal_strlit("VOICE_STATE_UPDATE");
        reveal_strlit("VOICE_SERVER_UPDATE");
    }
    let sequence = json_u64_field(text, "s");
    let op = json_u64_field(text, "op");
    let mut voice_state: Option<VoiceStateFields> = None;
    let event: GatewayEvent = match op {
        Some(10) => GatewayEvent::Hello {
            heartbeat_interval_ms: json_u64_field2(text, "d", "heartbeat_interval"),
        },
        Some(11) => GatewayEvent::HeartbeatAck,
        Some(7) => GatewayEvent::Reconnect,
        Some(9) => GatewayEvent::InvalidSession,
        Some(0) => {
            let t = str_field_or_empty(text, "t");
            if str_eq(t.as_str(), "READY") {
                proof {
                    lemma_name_from_text(json_str_field_of(text@, "t"@), t@, "READY"@);
                    assert(!is_vsu_frame(text@));
                }
                GatewayEvent::Ready {
                    session_id: json_str_field2(text, "d", "session_id"),
                    user_id: json_str_field3(text, "d", "user", "id"),
                }
            } else if str_eq(t.as_str(), "READY_SUPPLEMENTAL") {
                proof {
                    lemma_name_from_text(
                        json_str_field_of(text@, "t"@),
                        t@,
                        "READY_SUPPLEMENTAL"@,
                    );
                    assert("READY_SUPPLEMENTAL"@[0] == 'R' && "VOICE_STATE_UPDATE"@[0] == 'V');
                    assert(!is_vsu_frame(text@));
                }
                GatewayEvent::ReadySupplemental
            } else if str_eq(t.as_str(), "VOICE_STATE_UPDATE") {
                proof {
                    lemma_name_from_text(
                        json_str_field_of(text@, "t"@),
                        t@,
                        "VOICE_STATE_UPDATE"@,
                    );
                }
                if json_has_field(text, "d") {
                    proof {
                        assert(is_vsu_frame(text@));
                    }
                    let guild_id = str_field2_or_empty(text, "d", "guild_id");
                    let channel_id = json_str_field2(text, "d", "channel_id");
                    let user_id = match json_str_field2(text, "d", "user_id") {
                        Some(u) => u,
                        None => str_field4_or_empty(text, "d", "member", "user", "id"),
                    };
                    let nick = json_str_field3(text, "d", "member", "nick");
                    let global_name = json_str_field4(text, "d", "member", "user", "global_name");
                    let username = json_str_field4(text, "d", "member", "user", "username");
                    let avatar_hash = json_str_field4(text, "d", "member", "user", "avatar");
                    voice_state = Some(
                        VoiceStateFields {
                            guild_id,
                            channel_id,
                            user_id: user_id.clone(),
                            nick,
                            global_name,
                            username,
                            avatar_hash,
                        },
                    );
                    GatewayEvent::VoiceState { user_id }
                } else {
                    proof {
                        assert(!is_vsu_frame(text@));
                    }
                    GatewayEvent::Ignored
                }
            } else if str_eq(t.as_str(), "VOICE_SERVER_UPDATE") {
                proof {
                    lemma_name_from_text(
                        json_str_field_of(text@, "t"@),
                        t@,
                        "VOICE_SERVER_UPDATE"@,
                    );
                    assert(!is_vsu_frame(text@));
                }
                if json_has_field(text, "d") {
                    GatewayEvent::VoiceServer {
                        token: json_str_field2(text, "d", "token"),
                        endpoint: json_str_field2(text, "d", "endpoint"),
                        guild_id: json_str_field2(text, "d", "guild_id"),
                    }
                } else {
                    GatewayEvent::Ignored
                }
            } else {
                proof {
                    assert(!gw_known_event_name(json_str_field_of(text@, "t"@)));
                    assert(!is_vsu_frame(text@));
                }
                GatewayEvent::Ignored
            }
        },
        _ => GatewayEvent::Ignored,
    };
    ParsedGatewayFrame { frame: GatewayFrame { sequence, event }, voice_state }
}

/// The presence-cache update a voice-state event asks for: none when the
/// event names no guild or no user, else the guild and the participant with
/// the display-name fallback and avatar URL applied.
pub fn presence_update_of(f: VoiceStateFields) -> (r: Option<(String, VoiceParticipant)>)
    ensures
        (f.guild_id@.len() == 0 || f.user_id@.len() == 0) <==> r is None,
        r matches Some(pair) ==> pair.0 == f.guild_id && pair.1.user_id == f.user_id
            && pair.1.channel_id == f.channel_id && pair.1.display_name == (if f.nick is Some {
            f.nick
        } else if f.global_name is Some {
            f.global_name
        } else {
            f.username
        }) && (match f.avatar_hash {
            Some(h) => pair.1.avatar_url matches Some(a) && a@ == avatar_url_spec(f.user_id@, h@),
            None => pair.1.avatar_url is None,
        }),
{
    if f.guild_id.as_str().is_empty() || f.user_id.as_str().is_empty() {
        None
    } else {
        let p = crate::presence::participant_of_event(
            f.user_id,
            f.channel_id,
            f.nick,
            f.global_name,
            f.username,
            f.avatar_hash,
        );
        Some((f.guild_id, p))
    }
}

/// The ops the auth flow interprets.
pub open spec fn auth_known_op(op: Option<Seq<char>>) -> bool {
    op == Some("hello"@) || op == Some("nonce_proof"@) || op == Some("pending_remote_init"@) || op
        == Some("pending_ticket"@) || op == Some("pending_login"@) || op == Some("finish"@) || op
        == Some("cancel"@)
}

/// Decode one inbound remote-auth frame.
pub fn parse_auth_frame(text: &str) -> (r: AuthEvent)
    ensures
        !auth_known_op(json_str_field_of(text@, "op"@)) ==> r is Ignored,
        json_str_field_of(text@, "op"@) == Some("hello"@) ==> (r matches AuthEvent::Hello {
            heartbeat_interval_ms,
        } && heartbeat_interval_ms == json_u64_field_of(text@, "heartbeat_interval"@)),
        json_str_field_of(text@, "op"@) == Some("nonce_proof"@) ==> (r
            matches AuthEvent::NonceProof { encrypted_nonce_b64 } && encrypted_nonce_b64@
            == oseq_or_empty(json_str_field_of(text@, "encrypted_nonce"@))),
        json_str_field_of(text@, "op"@) == Some("pending_remote_init"@) ==> (r
            matches AuthEvent::PendingRemoteInit { fingerprint } && fingerprint@ == oseq_or_empty(
            json_str_field_of(text@, "fingerprint"@),
        )),
        json_str_field_of(text@, "op"@) == Some("pending_ticket"@) ==> r is PendingTicket,
        json_str_field_of(text@, "op"@) == Some("pending_login"@) ==> (r
            matches AuthEvent::PendingLogin { ticket } && ticket@ == oseq_or_empty(
            json_str_field_of(text@, "ticket"@),
        )),
        json_str_field_of(text@, "op"@) == Some("finish"@) ==> (r matches AuthEvent::Finish {
            encrypted_token,
        } && opt_view(encrypted_token) == json_str_field_of(text@, "encrypted_token"@)),
        json_str_field_of(text@, "op"@) == Some("cancel"@) ==> r is Cancel,
{
    proof {
        reveal_strlit("hello");
        reveal_strlit("nonce_proof");
        reveal_strlit("pending_remote_init");
        reveal_strlit("pending_ticket");
        reveal_strlit("pending_login");
        reveal_strlit("finish");
        reveal_strlit("cancel");
    }
    let op = str_field_or_empty(text, "op");
    if str_eq(op.as_str(), "hello") {
        proof {
            lemma_name_from_text(json_str_field_of(text@, "op"@), op@, "hello"@);
        }
        AuthEvent::Hello { heartbeat_interval_ms: json_u64_field(text, "heartbeat_interval") }
    } else if str_eq(op.as_str(), "nonce_proof") {
        proof {
            lemma_name_from_text(json_str_field_of(text@, "op"@), op@, "nonce_proof"@);
        }
        AuthEvent::NonceProof {
            encrypted_nonce_b64: str_field_or_empty(text, "encrypted_nonce"),
        }
    } else if str_eq(op.as_str(), "pending_remote_init") {
        proof {
            lemma_name_from_text(json_str_field_of(text@, "op"@), op@, "pending_remote_init"@);
        }
        AuthEvent::PendingRemoteInit { fingerprint: str_field_or_empty(text, "fingerprint") }
    } else if str_eq(op.as_str(), "pending_ticket") {
        proof {
            lemma_name_from_text(json_str_field_of(text@, "op"@), op@, "pending_ticket"@);
        }
        AuthEvent::PendingTicket
    } else if str_eq(op.as_str(), "pending_login") {
        proof {
            lemma_name_from_text(json_str_field_of(text@, "op"@), op@, "pending_login"@);
        }
        AuthEvent::PendingLogin { ticket: str_field_or_empty(text, "ticket") }
    } else if str_eq(op.as_str(), "finish") {
        proof {
            lemma_name_from_text(json_str_field_of(text@, "op"@), op@, "finish"@);
            assert("finish"@[0] == 'f' && "cancel"@[0] == 'c');
        }
        AuthEvent::Finish { encrypted_token: json_str_field(text, "encrypted_token") }
    } else if str_eq(op.as_str(), "cancel") {
        proof {
            lemma_name_from_text(json_str_field_of(text@, "op"@), op@, "cancel"@);
            assert("finish"@[0] == 'f' && "cancel"@[0] == 'c');
        }
        AuthEvent::Cancel
    } else {
        AuthEvent::Ignored
    }
}

} // verus!
