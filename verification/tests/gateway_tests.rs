use voxium::gateway::{
    assemble_info, leave_resolution, GatewayAction, GatewayCommand, GatewayInput, GatewayState,
    JoinFailure,
};
use voxium::wire::parse_gateway_frame;

fn frame_input(text: &str) -> GatewayInput {
    GatewayInput::Frame(parse_gateway_frame(text).frame)
}

#[test]
fn hello_starts_heartbeat_and_identifies_once() {
    let s = GatewayState::new();
    let (s, acts) = s.step(frame_input("{\"op\":10,\"d\":{\"heartbeat_interval\":41250}}"));
    assert_eq!(acts.len(), 2);
    assert!(matches!(acts[0], GatewayAction::StartHeartbeat { interval_ms: 41250 }));
    assert!(matches!(acts[1], GatewayAction::SendIdentify));
    // a second hello must not identify again
    let (_s, acts) = s.step(frame_input("{\"op\":10,\"d\":{\"heartbeat_interval\":1000}}"));
    assert_eq!(acts.len(), 1);
    assert!(matches!(acts[0], GatewayAction::StartHeartbeat { interval_ms: 1000 }));
}

#[test]
fn heartbeat_tick_carries_last_sequence() {
    let s = GatewayState::new();
    let (s, _) = s.step(frame_input("{\"op\":0,\"s\":7,\"t\":\"UNKNOWN\",\"d\":{}}"));
    let (_s, acts) = s.step(GatewayInput::HeartbeatTick);
    assert_eq!(acts.len(), 1);
    assert!(matches!(acts[0], GatewayAction::SendHeartbeat { sequence: Some(7) }));
}

#[test]
fn full_join_scenario_resolves_with_correlated_info() {
    // hello -> identify once -> ready with queued join -> state then server
    // update -> the join resolves with the correlated pieces
    let s = GatewayState::new();
    let (s, acts) = s.step(frame_input("{\"op\":10,\"d\":{\"heartbeat_interval\":41250}}"));
    assert!(matches!(acts[1], GatewayAction::SendIdentify));
    let (s, acts) = s.step(GatewayInput::Command(GatewayCommand::JoinVoice {
        guild_id: "g1".to_string(),
        channel_id: "c1".to_string(),
        reply: 1,
    }));
    assert!(acts.is_empty());
    assert!(s.queued_join.is_some());
    let (s, acts) = s.step(frame_input(
        "{\"op\":0,\"t\":\"READY\",\"d\":{\"session_id\":\"s1\",\"user\":{\"id\":\"u1\"}}}",
    ));
    assert_eq!(acts.len(), 1);
    match &acts[0] {
        GatewayAction::SendJoin { guild_id, channel_id } => {
            assert_eq!(guild_id, "g1");
            assert_eq!(channel_id, "c1");
        }
        other => panic!("unexpected action {:?}", action_name(other)),
    }
    let (s, acts) = s.step(frame_input(
        "{\"op\":0,\"t\":\"VOICE_STATE_UPDATE\",\"d\":{\"guild_id\":\"g1\",\"channel_id\":\"c1\",\"user_id\":\"u1\"}}",
    ));
    assert!(acts.is_empty());
    let (s, acts) = s.step(frame_input(
        "{\"op\":0,\"t\":\"VOICE_SERVER_UPDATE\",\"d\":{\"guild_id\":\"g1\",\"token\":\"T\",\"endpoint\":\"ep\"}}",
    ));
    assert_eq!(acts.len(), 1);
    match acts.into_iter().next().unwrap() {
        GatewayAction::ResolveJoinOk { reply, token, endpoint, guild_id, session_id, user_id } => {
            assert_eq!(reply, 1);
            let info = assemble_info(token, endpoint, guild_id, session_id, user_id);
            assert_eq!(info.token, "T");
            assert_eq!(info.endpoint.as_deref(), Some("ep"));
            assert_eq!(info.guild_id.as_deref(), Some("g1"));
            assert_eq!(info.session_id, "s1");
            assert_eq!(info.user_id, "u1");
        }
        _ => panic!("expected a successful resolution"),
    }
    assert!(s.pending_join.is_none());
}

#[test]
fn join_resolves_in_either_event_order() {
    let ready = || {
        let s = GatewayState::new();
        let (s, _) = s.step(frame_input("{\"op\":10,\"d\":{\"heartbeat_interval\":41250}}"));
        let (s, _) = s.step(frame_input(
            "{\"op\":0,\"t\":\"READY\",\"d\":{\"session_id\":\"s1\",\"user\":{\"id\":\"u1\"}}}",
        ));
        let (s, _) = s.step(GatewayInput::Command(GatewayCommand::JoinVoice {
            guild_id: "g1".to_string(),
            channel_id: "c1".to_string(),
            reply: 9,
        }));
        s
    };
    let vsu = "{\"op\":0,\"t\":\"VOICE_STATE_UPDATE\",\"d\":{\"guild_id\":\"g1\",\"channel_id\":\"c1\",\"user_id\":\"u1\"}}";
    let vser = "{\"op\":0,\"t\":\"VOICE_SERVER_UPDATE\",\"d\":{\"guild_id\":\"g1\",\"token\":\"T\",\"endpoint\":\"ep\"}}";
    for order in [[vsu, vser], [vser, vsu]] {
        let s = ready();
        let (s, acts) = s.step(frame_input(order[0]));
        assert!(acts.is_empty(), "no resolution before both events arrived");
        let (s, acts) = s.step(frame_input(order[1]));
        assert_eq!(acts.len(), 1, "exactly one resolution as the second arrives");
        assert!(matches!(acts[0], GatewayAction::ResolveJoinOk { reply: 9, .. }));
        assert!(s.pending_join.is_none());
        // replaying either event afterwards resolves nothing more
        let (_s, acts) = s.step(frame_input(order[0]));
        assert!(acts.is_empty());
    }
}

#[test]
fn second_join_supersedes_pending_first() {
    let s = GatewayState::new();
    let (s, _) = s.step(frame_input(
        "{\"op\":0,\"t\":\"READY\",\"d\":{\"session_id\":\"s1\",\"user\":{\"id\":\"u1\"}}}",
    ));
    let (s, _) = s.step(GatewayInput::Command(GatewayCommand::JoinVoice {
        guild_id: "g1".to_string(),
        channel_id: "c1".to_string(),
        reply: 1,
    }));
    let (s, acts) = s.step(GatewayInput::Command(GatewayCommand::JoinVoice {
        guild_id: "g2".to_string(),
        channel_id: "c2".to_string(),
        reply: 2,
    }));
    assert!(matches!(
        acts[0],
        GatewayAction::ResolveJoinErr { reply: 1, failure: JoinFailure::Superseded }
    ));
    let p = s.pending_join.as_ref().unwrap();
    assert_eq!(p.guild_id, "g2");
    assert_eq!(p.reply, 2);
}

#[test]
fn leave_resolves_immediately_on_send() {
    let s = GatewayState::new();
    let (s2, acts) = s.step(GatewayInput::Command(GatewayCommand::LeaveVoice {
        guild_id: "g1".to_string(),
        reply: 3,
    }));
    assert_eq!(acts.len(), 2);
    match &acts[0] {
        GatewayAction::SendLeave { guild_id } => assert_eq!(guild_id, "g1"),
        _ => panic!("expected the leave frame send first"),
    }
    assert!(matches!(acts[1], GatewayAction::ResolveLeaveOnSend { reply: 3 }));
    // nothing is recorded for later gateway confirmation
    assert!(s2.pending_join.is_none());
    assert!(leave_resolution(true).is_ok());
    let err = leave_resolution(false).unwrap_err();
    assert_eq!(err, "Failed to send voice leave");
}

#[test]
fn joins_before_ready_queue_and_only_newest_survives() {
    let s = GatewayState::new();
    let (s, acts) = s.step(GatewayInput::Command(GatewayCommand::JoinVoice {
        guild_id: "g1".to_string(),
        channel_id: "c1".to_string(),
        reply: 1,
    }));
    assert!(acts.is_empty());
    let (s, acts) = s.step(GatewayInput::Command(GatewayCommand::JoinVoice {
        guild_id: "g2".to_string(),
        channel_id: "c2".to_string(),
        reply: 2,
    }));
    assert_eq!(acts.len(), 1);
    assert!(matches!(
        acts[0],
        GatewayAction::ResolveJoinErr { reply: 1, failure: JoinFailure::Superseded }
    ));
    let (s, acts) = s.step(frame_input(
        "{\"op\":0,\"t\":\"READY\",\"d\":{\"session_id\":\"s1\",\"user\":{\"id\":\"u1\"}}}",
    ));
    assert_eq!(acts.len(), 1);
    match &acts[0] {
        GatewayAction::SendJoin { guild_id, channel_id } => {
            assert_eq!(guild_id, "g2");
            assert_eq!(channel_id, "c2");
        }
        _ => panic!("expected the surviving join to replay"),
    }
    assert!(s.queued_join.is_none());
    assert!(s.pending_join.is_some());
}

#[test]
fn queued_join_survives_wait_without_ready() {
    // the external wait times out on the caller's side; the actor keeps the
    // queued join pending rather than cancelling it
    let s = GatewayState::new();
    let (s, _) = s.step(GatewayInput::Command(GatewayCommand::JoinVoice {
        guild_id: "g1".to_string(),
        channel_id: "c1".to_string(),
        reply: 1,
    }));
    let (s, acts) = s.step(GatewayInput::HeartbeatTick);
    assert!(matches!(acts[0], GatewayAction::SendHeartbeat { .. }));
    let (s, acts) = s.step(frame_input("{\"op\":11}"));
    assert!(acts.is_empty());
    let q = s.queued_join.as_ref().unwrap();
    assert_eq!(q.guild_id, "g1");
    assert_eq!(q.reply, 1);
}

#[test]
fn invalid_session_fails_pending_and_terminates() {
    let s = GatewayState::new();
    let (s, _) = s.step(frame_input(
        "{\"op\":0,\"t\":\"READY\",\"d\":{\"session_id\":\"s1\",\"user\":{\"id\":\"u1\"}}}",
    ));
    let (s, _) = s.step(GatewayInput::Command(GatewayCommand::JoinVoice {
        guild_id: "g1".to_string(),
        channel_id: "c1".to_string(),
        reply: 5,
    }));
    let (s, acts) = s.step(frame_input("{\"op\":9}"));
    assert!(!s.running);
    assert!(matches!(
        acts[0],
        GatewayAction::ResolveJoinErr { reply: 5, failure: JoinFailure::InvalidSession }
    ));
    assert_eq!(JoinFailure::InvalidSession.message(), "Discord session invalid");
}

#[test]
fn cleanup_fails_pending_as_connection_closed() {
    let s = GatewayState::new();
    let (s, _) = s.step(frame_input(
        "{\"op\":0,\"t\":\"READY\",\"d\":{\"session_id\":\"s1\",\"user\":{\"id\":\"u1\"}}}",
    ));
    let (s, _) = s.step(GatewayInput::Command(GatewayCommand::JoinVoice {
        guild_id: "g1".to_string(),
        channel_id: "c1".to_string(),
        reply: 5,
    }));
    let (s, acts) = s.step(frame_input("{\"op\":7}"));
    assert!(!s.running);
    assert!(acts.is_empty());
    let (s, acts) = s.finish();
    assert!(matches!(
        acts[0],
        GatewayAction::ResolveJoinErr { reply: 5, failure: JoinFailure::ConnectionClosed }
    ));
    assert!(s.pending_join.is_none());
}

#[test]
fn cleanup_fails_queued_join_as_connection_closed() {
    // a join still queued (ready never came) is not dropped unresolved:
    // actor cleanup fails it like a pending one
    let s = GatewayState::new();
    let (s, _) = s.step(GatewayInput::Command(GatewayCommand::JoinVoice {
        guild_id: "g1".to_string(),
        channel_id: "c1".to_string(),
        reply: 8,
    }));
    let (s, acts) = s.step(frame_input("{\"op\":7}"));
    assert!(!s.running);
    assert!(acts.is_empty());
    let (s, acts) = s.finish();
    assert_eq!(acts.len(), 1);
    assert!(matches!(
        acts[0],
        GatewayAction::ResolveJoinErr { reply: 8, failure: JoinFailure::ConnectionClosed }
    ));
    assert!(s.queued_join.is_none());
    assert!(s.pending_join.is_none());
}

fn action_name(a: &GatewayAction) -> &'static str {
    match a {
        GatewayAction::StartHeartbeat { .. } => "StartHeartbeat",
        GatewayAction::SendIdentify => "SendIdentify",
        GatewayAction::SendHeartbeat { .. } => "SendHeartbeat",
        GatewayAction::SendJoin { .. } => "SendJoin",
        GatewayAction::SendLeave { .. } => "SendLeave",
        GatewayAction::DelayMs { .. } => "DelayMs",
        GatewayAction::ResolveJoinOk { .. } => "ResolveJoinOk",
        GatewayAction::ResolveJoinErr { .. } => "ResolveJoinErr",
        GatewayAction::ResolveLeaveOnSend { .. } => "ResolveLeaveOnSend",
    }
}
