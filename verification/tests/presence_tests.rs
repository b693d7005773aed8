use voxium::presence::{PresenceState, VoiceParticipant};
use voxium::wire::{parse_gateway_frame, presence_update_of};

fn participant(user: &str, channel: Option<&str>) -> VoiceParticipant {
    VoiceParticipant {
        user_id: user.to_string(),
        channel_id: channel.map(|c| c.to_string()),
        display_name: None,
        avatar_url: None,
    }
}

#[test]
fn apply_inserts_overwrites_and_removes() {
    let mut p = PresenceState::new();
    p.apply("g1".to_string(), participant("u1", Some("c1")));
    p.apply("g1".to_string(), participant("u2", Some("c1")));
    let all = p.participants_in("g1", None);
    assert_eq!(all.len(), 2);
    // overwrite u1 into another channel
    p.apply("g1".to_string(), participant("u1", Some("c2")));
    let c2 = p.participants_in("g1", Some("c2"));
    assert_eq!(c2.len(), 1);
    assert_eq!(c2[0].user_id, "u1");
    let c1 = p.participants_in("g1", Some("c1"));
    assert_eq!(c1.len(), 1);
    assert_eq!(c1[0].user_id, "u2");
    // a null channel removes the user from the guild
    p.apply("g1".to_string(), participant("u1", None));
    let all = p.participants_in("g1", None);
    assert_eq!(all.len(), 1);
    assert_eq!(all[0].user_id, "u2");
}

#[test]
fn unknown_guild_reads_empty() {
    let mut p = PresenceState::new();
    p.apply("g1".to_string(), participant("u1", Some("c1")));
    assert!(p.participants_in("g2", None).is_empty());
}

#[test]
fn removal_of_absent_user_is_harmless() {
    let mut p = PresenceState::new();
    p.apply("g1".to_string(), participant("u1", Some("c1")));
    p.apply("g1".to_string(), participant("u9", None));
    assert_eq!(p.participants_in("g1", None).len(), 1);
}

#[test]
fn voice_state_event_updates_cache_for_any_user() {
    let parsed = parse_gateway_frame(
        "{\"op\":0,\"t\":\"VOICE_STATE_UPDATE\",\"d\":{\"guild_id\":\"g1\",\"channel_id\":\"c1\",\"user_id\":\"u7\",\"member\":{\"nick\":\"Nick\",\"user\":{\"id\":\"u7\",\"global_name\":\"Glob\",\"username\":\"name\",\"avatar\":\"abc\"}}}}",
    );
    let fields = parsed.voice_state.expect("voice-state fields");
    let (guild, q) = presence_update_of(fields).expect("a cache update");
    assert_eq!(guild, "g1");
    assert_eq!(q.user_id, "u7");
    assert_eq!(q.channel_id.as_deref(), Some("c1"));
    assert_eq!(q.display_name.as_deref(), Some("Nick"));
    assert_eq!(
        q.avatar_url.as_deref(),
        Some("https://cdn.discordapp.com/avatars/u7/abc.png?size=64")
    );
    let mut p = PresenceState::new();
    p.apply(guild, q);
    assert_eq!(p.participants_in("g1", Some("c1")).len(), 1);
}

#[test]
fn display_name_falls_back_to_global_name_then_username() {
    let parsed = parse_gateway_frame(
        "{\"op\":0,\"t\":\"VOICE_STATE_UPDATE\",\"d\":{\"guild_id\":\"g1\",\"channel_id\":\"c1\",\"user_id\":\"u7\",\"member\":{\"user\":{\"id\":\"u7\",\"username\":\"name\"}}}}",
    );
    let (_, q) = presence_update_of(parsed.voice_state.unwrap()).unwrap();
    assert_eq!(q.display_name.as_deref(), Some("name"));
    assert!(q.avatar_url.is_none());
}

#[test]
fn event_without_guild_or_user_updates_nothing() {
    let parsed = parse_gateway_frame(
        "{\"op\":0,\"t\":\"VOICE_STATE_UPDATE\",\"d\":{\"channel_id\":\"c1\",\"user_id\":\"u7\"}}",
    );
    assert!(presence_update_of(parsed.voice_state.unwrap()).is_none());
}
