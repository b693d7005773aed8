//! The per-user gateway session state machine. The session actor multiplexes
//! three event sources (inbound frames, heartbeat ticks, commands); every
//! decision it takes is the pure transition `gw_step`, and the executable
//! `GatewayState::step` is proved to follow it. Sends, delays and reply
//! resolutions come out as `GatewayAction` values for the caller to perform.

use vstd::prelude::*;

verus! {

/// Heartbeat interval assumed until the hello frame supplies one.
pub const DEFAULT_HEARTBEAT_MS: u64 = 41250;

/// Pause between the leave sent ahead of a join and the join itself, to make
/// the platform emit a fresh server update.
pub const LEAVE_JOIN_DELAY_MS: u64 = 200;

/// Result of a completed join: correlated from the ready frame, the owner's
/// voice-state update and the voice-server update.
pub struct VoiceServerInfo {
    pub token: String,
    pub endpoint: Option<String>,
    pub guild_id: Option<String>,
    pub session_id: String,
    pub user_id: String,
}

/// A caller's request to join a voice channel.
pub struct VoiceJoinPayload {
    pub guild_id: String,
    pub channel_id: String,
}

/// A caller's request to leave a guild's voice channel.
pub struct VoiceLeavePayload {
    pub guild_id: String,
}

/// A caller's presence query: a guild, optionally narrowed to one channel.
pub struct VoiceParticipantsQuery {
    pub guild_id: String,
    pub channel_id: Option<String>,
}

/// A join request riding through the session: queued before ready, then
/// pending while its two answering events are awaited.
pub struct JoinRequest {
    pub guild_id: String,
    pub channel_id: String,
    pub reply: u64,
}

/// Why a join or leave request failed.
#[derive(Clone, Copy, Debug, PartialEq, Eq, Structural)]
pub enum JoinFailure {
    /// A newer join preempted this one.
    Superseded,
    /// The platform declared the session invalid.
    InvalidSession,
    /// The session ended while the request was in flight.
    ConnectionClosed,
    /// The outbound frame could not be sent.
    SendFailed,
    /// The socket never connected.
    ConnectFailed,
}

/// An inbound frame, already decoded to the fields the session interprets.
pub enum GatewayEvent {
    Hello { heartbeat_interval_ms: Option<u64> },
    HeartbeatAck,
    Ready { session_id: Option<String>, user_id: Option<String> },
    ReadySupplemental,
    VoiceState { user_id: String },
    VoiceServer { token: Option<String>, endpoint: Option<String>, guild_id: Option<String> },
    Reconnect,
    InvalidSession,
    Ignored,
}

/// A decoded frame: its sequence number, if any, and its event.
pub struct GatewayFrame {
    pub sequence: Option<u64>,
    pub event: GatewayEvent,
}

/// A command sent by a caller, carrying the identifier of its single-use
/// reply slot.
pub enum GatewayCommand {
    JoinVoice { guild_id: String, channel_id: String, reply: u64 },
    LeaveVoice { guild_id: String, reply: u64 },
}

/// One occurrence on any of the actor's event sources.
pub enum GatewayInput {
    Frame(GatewayFrame),
    /// Close frame, stream end or transport error.
    SocketClosed,
    HeartbeatTick,
    /// Sending a heartbeat frame failed.
    HeartbeatSendFailed,
    /// Sending the join voice-state frame failed.
    JoinSendFailed,
    Command(GatewayCommand),
    CommandChannelClosed,
}

/// What the caller must perform after a step, in order.
pub enum GatewayAction {
    /// Start (another) periodic heartbeat sub-task at this interval.
    StartHeartbeat { interval_ms: u64 },
    /// Send the identify frame.
    SendIdentify,
    /// Send a heartbeat frame carrying this sequence number.
    SendHeartbeat { sequence: Option<u64> },
    /// Send the voice-state frame joining this channel.
    SendJoin { guild_id: String, channel_id: String },
    /// Send the voice-state frame leaving this guild's channel.
    SendLeave { guild_id: String },
    /// Wait this long before performing the next action.
    DelayMs { ms: u64 },
    /// Resolve a join reply successfully with these pieces
    /// (absent text fields stand for empty text).
    ResolveJoinOk {
        reply: u64,
        token: Option<String>,
        endpoint: Option<String>,
        guild_id: Option<String>,
        session_id: Option<String>,
        user_id: Option<String>,
    },
    /// Resolve a join reply with a failure.
    ResolveJoinErr { reply: u64, failure: JoinFailure },
    /// Resolve a leave reply right after its frame send: success if the send
    /// succeeded, a send failure otherwise — never awaiting confirmation.
    ResolveLeaveOnSend { reply: u64 },
}

/// The protocol state the actor owns.
pub struct GatewayState {
    pub heartbeat_interval_ms: u64,
    pub sequence: Option<u64>,
    pub session_id: Option<String>,
    pub identified: bool,
    pub user_id: Option<String>,
    pub queued_join: Option<JoinRequest>,
    pub pending_join: Option<JoinRequest>,
    pub voice_token: Option<String>,
    pub voice_endpoint: Option<String>,
    pub voice_guild_id: Option<String>,
    /// The owner's voice-state update for the pending join has arrived.
    pub own_state_seen: bool,
    /// The voice-server update for the pending join has arrived.
    pub server_seen: bool,
    pub running: bool,
}

pub open spec fn opt_view(o: Option<String>) -> Option<Seq<char>> {
    match o {
        Some(s) => Some(s@),
        None => None,
    }
}

pub open spec fn opt_or_empty(o: Option<String>) -> Seq<char> {
    match o {
        Some(s) => s@,
        None => Seq::empty(),
    }
}

pub open spec fn req_matches(a: JoinRequest, b: JoinRequest) -> bool {
    a.guild_id@ == b.guild_id@ && a.channel_id@ == b.channel_id@ && a.reply == b.reply
}

pub open spec fn action_matches(a: GatewayAction, b: GatewayAction) -> bool {
    match (a, b) {
        (
            GatewayAction::StartHeartbeat { interval_ms: x },
            GatewayAction::StartHeartbeat { interval_ms: y },
        ) => x == y,
        (GatewayAction::SendIdentify, GatewayAction::SendIdentify) => true,
        (
            GatewayAction::SendHeartbeat { sequence: x },
            GatewayAction::SendHeartbeat { sequence: y },
        ) => x == y,
        (
            GatewayAction::SendJoin { guild_id: g1, channel_id: c1 },
            GatewayAction::SendJoin { guild_id: g2, channel_id: c2 },
        ) => g1@ == g2@ && c1@ == c2@,
        (
            GatewayAction::SendLeave { guild_id: g1 },
            GatewayAction::SendLeave { guild_id: g2 },
        ) => g1@ == g2@,
        (GatewayAction::DelayMs { ms: x }, GatewayAction::DelayMs { ms: y }) => x == y,
        (
            GatewayAction::ResolveJoinOk {
                reply: r1,
                token: t1,
                endpoint: e1,
                guild_id: g1,
                session_id: s1,
                user_id: u1,
            },
            GatewayAction::ResolveJoinOk {
                reply: r2,
                token: t2,
                endpoint: e2,
                guild_id: g2,
                session_id: s2,
                user_id: u2,
            },
        ) => r1 == r2 && opt_view(t1) == opt_view(t2) && opt_view(e1) == opt_view(e2) && opt_view(
            g1,
        ) == opt_view(g2) && opt_view(s1) == opt_view(s2) && opt_view(u1) == opt_view(u2),
        (
            GatewayAction::ResolveJoinErr { reply: r1, failure: f1 },
            GatewayAction::ResolveJoinErr { reply: r2, failure: f2 },
        ) => r1 == r2 && f1 == f2,
        (
            GatewayAction::ResolveLeaveOnSend { reply: r1 },
            GatewayAction::ResolveLeaveOnSend { reply: r2 },
        ) => r1 == r2,
        _ => false,
    }
}

pub open spec fn acts_match(a: Seq<GatewayAction>, b: Seq<GatewayAction>) -> bool {
    a.len() == b.len() && (forall|i: int|
        0 <= i < a.len() ==> action_matches(a[i], #[trigger] b[i]))
}

/// Record an inbound frame's sequence number.
pub open spec fn with_sequence(s: GatewayState, sequence: Option<u64>) -> GatewayState {
    match sequence {
        Some(n) => GatewayState { sequence: Some(n), ..s },
        None => s,
    }
}

/// At ready: move a queued join to pending, clearing any stale voice answer,
/// and send the join frame.
pub open spec fn replay_queued(s: GatewayState) -> (GatewayState, Seq<GatewayAction>) {
    match s.queued_join {
        Some(q) => (
            GatewayState {
                queued_join: None,
                pending_join: Some(q),
                voice_token: None,
                voice_endpoint: None,
                voice_guild_id: None,
                own_state_seen: false,
                server_seen: false,
                ..s
            },
            seq![GatewayAction::SendJoin { guild_id: q.guild_id, channel_id: q.channel_id }],
        ),
        None => (s, Seq::empty()),
    }
}

/// Resolve the pending join once both answering events have arrived.
pub open spec fn resolve_if_both(s: GatewayState) -> (GatewayState, Seq<GatewayAction>) {
    match s.pending_join {
        Some(p) => if s.own_state_seen && s.server_seen {
            (
                GatewayState {
                    pending_join: None,
                    voice_token: None,
                    voice_endpoint: None,
                    voice_guild_id: None,
                    own_state_seen: false,
                    server_seen: false,
                    ..s
                },
                seq![
                    GatewayAction::ResolveJoinOk {
                        reply: p.reply,
                        token: s.voice_token,
                        endpoint: s.voice_endpoint,
                        guild_id: s.voice_guild_id,
                        session_id: s.session_id,
                        user_id: s.user_id,
                    },
                ],
            )
        } else {
            (s, Seq::empty())
        },
        None => (s, Seq::empty()),
    }
}

/// The transition for one inbound event (after sequence capture).
pub open spec fn gw_step_event(s: GatewayState, ev: GatewayEvent) -> (
    GatewayState,
    Seq<GatewayAction>,
) {
    match ev {
        GatewayEvent::Hello { heartbeat_interval_ms } => {
            let iv = match heartbeat_interval_ms {
                Some(v) => v,
                None => s.heartbeat_interval_ms,
            };
            (
                GatewayState { heartbeat_interval_ms: iv, identified: true, ..s },
                seq![GatewayAction::StartHeartbeat { interval_ms: iv }] + if s.identified {
                    Seq::empty()
                } else {
                    seq![GatewayAction::SendIdentify]
                },
            )
        },
        GatewayEvent::HeartbeatAck => (s, Seq::empty()),
        GatewayEvent::Ready { session_id, user_id } => replay_queued(
            GatewayState { session_id, user_id, ..s },
        ),
        GatewayEvent::ReadySupplemental => replay_queued(s),
        GatewayEvent::VoiceState { user_id } => {
            if user_id@ == opt_or_empty(s.user_id) {
                resolve_if_both(GatewayState { own_state_seen: true, ..s })
            } else {
                (s, Seq::empty())
            }
        },
        GatewayEvent::VoiceServer { token, endpoint, guild_id } => resolve_if_both(
            GatewayState {
                voice_token: token,
                voice_endpoint: endpoint,
                voice_guild_id: guild_id,
                server_seen: true,
                ..s
            },
        ),
        GatewayEvent::Reconnect => (GatewayState { running: false, ..s }, Seq::empty()),
        GatewayEvent::InvalidSession => {
            match s.pending_join {
                Some(p) => (
                    GatewayState { running: false, pending_join: None, ..s },
                    seq![
                        GatewayAction::ResolveJoinErr {
                            reply: p.reply,
                            failure: JoinFailure::InvalidSession,
                        },
                    ],
                ),
                None => (GatewayState { running: false, ..s }, Seq::empty()),
            }
        },
        GatewayEvent::Ignored => (s, Seq::empty()),
    }
}

/// The transition for one occurrence on any event source.
pub open spec fn gw_step(s: GatewayState, input: GatewayInput) -> (
    GatewayState,
    Seq<GatewayAction>,
) {
    match input {
        GatewayInput::Frame(f) => gw_step_event(with_sequence(s, f.sequence), f.event),
        GatewayInput::SocketClosed => (GatewayState { running: false, ..s }, Seq::empty()),
        GatewayInput::HeartbeatTick => (
            s,
            seq![GatewayAction::SendHeartbeat { sequence: s.sequence }],
        ),
        GatewayInput::HeartbeatSendFailed => (
            GatewayState { running: false, ..s },
            Seq::empty(),
        ),
        GatewayInput::JoinSendFailed => {
            match s.pending_join {
                Some(p) => (
                    GatewayState { pending_join: None, ..s },
                    seq![
                        GatewayAction::ResolveJoinErr {
                            reply: p.reply,
                            failure: JoinFailure::SendFailed,
                        },
                    ],
                ),
                None => (s, Seq::empty()),
            }
        },
        GatewayInput::Command(GatewayCommand::JoinVoice { guild_id, channel_id, reply }) => {
            if s.session_id is None {
                let acts = match s.queued_join {
                    Some(q) => seq![
                        GatewayAction::ResolveJoinErr {
                            reply: q.reply,
                            failure: JoinFailure::Superseded,
                        },
                    ],
                    None => Seq::empty(),
                };
                (
                    GatewayState {
                        queued_join: Some(JoinRequest { guild_id, channel_id, reply }),
                        ..s
                    },
                    acts,
                )
            } else {
                let pre = match s.pending_join {
                    Some(p) => seq![
                        GatewayAction::ResolveJoinErr {
                            reply: p.reply,
                            failure: JoinFailure::Superseded,
                        },
                    ],
                    None => Seq::empty(),
                };
                (
                    GatewayState {
                        pending_join: Some(JoinRequest { guild_id, channel_id, reply }),
                        voice_token: None,
                        voice_endpoint: None,
                        voice_guild_id: None,
                        own_state_seen: false,
                        server_seen: false,
                        ..s
                    },
                    pre + seq![
                        GatewayAction::SendLeave { guild_id },
                        GatewayAction::DelayMs { ms: LEAVE_JOIN_DELAY_MS },
                        GatewayAction::SendJoin { guild_id, channel_id },
                    ],
                )
            }
        },
        GatewayInput::Command(GatewayCommand::LeaveVoice { guild_id, reply }) => (
            s,
            seq![
                GatewayAction::SendLeave { guild_id },
                GatewayAction::ResolveLeaveOnSend { reply },
            ],
        ),
        GatewayInput::CommandChannelClosed => (GatewayState { running: false, ..s }, Seq::empty()),
    }
}

/// Actor cleanup: any still-pending join fails as the connection closes.
pub open spec fn gw_finish(s: GatewayState) -> (GatewayState, Seq<GatewayAction>) {
    let pending_acts = match s.pending_join {
        Some(p) => seq![
            GatewayAction::ResolveJoinErr { reply: p.reply, failure: JoinFailure::ConnectionClosed },
        ],
        None => Seq::<GatewayAction>::empty(),
    };
    let queued_acts = match s.queued_join {
        Some(q) => seq![
            GatewayAction::ResolveJoinErr { reply: q.reply, failure: JoinFailure::ConnectionClosed },
        ],
        None => Seq::<GatewayAction>::empty(),
    };
    (GatewayState { pending_join: None, queued_join: None, ..s }, pending_acts + queued_acts)
}

impl GatewayState {
    /// The state right after the socket connects.
    pub fn new() -> (r: GatewayState)
        ensures
            (r == GatewayState {
                heartbeat_interval_ms: DEFAULT_HEARTBEAT_MS,
                sequence: None::<u64>,
                session_id: None::<String>,
                identified: false,
                user_id: None::<String>,
                queued_join: None::<JoinRequest>,
                pending_join: None::<JoinRequest>,
                voice_token: None::<String>,
                voice_endpoint: None::<String>,
                voice_guild_id: None::<String>,
                own_state_seen: false,
                server_seen: false,
                running: true,
            }),
    {
        GatewayState {
            heartbeat_interval_ms: DEFAULT_HEARTBEAT_MS,
            sequence: None,
            session_id: None,
            identified: false,
            user_id: None,
            queued_join: None,
            pending_join: None,
            voice_token: None,
            voice_endpoint: None,
            voice_guild_id: None,
            own_state_seen: false,
            server_seen: false,
            running: true,
        }
    }

    /// Perform one transition of the session state machine.
    pub fn step(self, input: GatewayInput) -> (r: (GatewayState, Vec<GatewayAction>))
        requires
            self.running,
        ensures
            r.0 == gw_step(self, input).0,
            acts_match(r.1@, gw_step(self, input).1),
    {
        let mut acts: Vec<GatewayAction> = Vec::new();
        match input {
            GatewayInput::Frame(f) => {
                let s1 = match f.sequence {
                    Some(n) => GatewayState { sequence: Some(n), ..self },
                    None => self,
                };
                let r0 = s1.step_event(f.event);
                (r0.0, r0.1)
            },
            GatewayInput::SocketClosed => (GatewayState { running: false, ..self }, acts),
            GatewayInput::HeartbeatTick => {
                acts.push(GatewayAction::SendHeartbeat { sequence: self.sequence });
                (self, acts)
            },
            GatewayInput::HeartbeatSendFailed => (GatewayState { running: false, ..self }, acts),
            GatewayInput::JoinSendFailed => {
                match self.pending_join {
                    Some(p) => {
                        acts.push(
                            GatewayAction::ResolveJoinErr {
                                reply: p.reply,
                                failure: JoinFailure::SendFailed,
                            },
                        );
                        (GatewayState { pending_join: None, ..self }, acts)
                    },
                    None => (self, acts),
                }
            },
            GatewayInput::Command(GatewayCommand::JoinVoice { guild_id, channel_id, reply }) => {
                if self.session_id.is_none() {
                    let s1 = match self.queued_join {
                        Some(q) => {
                            acts.push(
                                GatewayAction::ResolveJoinErr {
                                    reply: q.reply,
                                    failure: JoinFailure::Superseded,
                                },
                            );
                            GatewayState { queued_join: None, ..self }
                        },
                        None => self,
                    };
                    (
                        GatewayState {
                            queued_join: Some(JoinRequest { guild_id, channel_id, reply }),
                            ..s1
                        },
                        acts,
                    )
                } else {
                    let s1 = match self.pending_join {
                        Some(p) => {
                            acts.push(
                                GatewayAction::ResolveJoinErr {
                                    reply: p.reply,
                                    failure: JoinFailure::Superseded,
                                },
                            );
                            GatewayState { pending_join: None, ..self }
                        },
                        None => self,
                    };
                    acts.push(GatewayAction::SendLeave { guild_id: guild_id.clone() });
                    acts.push(GatewayAction::DelayMs { ms: LEAVE_JOIN_DELAY_MS });
                    acts.push(
                        GatewayAction::SendJoin {
                            guild_id: guild_id.clone(),
                            channel_id: channel_id.clone(),
                        },
                    );
                    (
                        GatewayState {
                            pending_join: Some(JoinRequest { guild_id, channel_id, reply }),
                            voice_token: None,
                            voice_endpoint: None,
                            voice_guild_id: None,
                            own_state_seen: false,
                            server_seen: false,
                            ..s1
                        },
                        acts,
                    )
                }
            },
            GatewayInput::Command(GatewayCommand::LeaveVoice { guild_id, reply }) => {
                acts.push(GatewayAction::SendLeave { guild_id });
                acts.push(GatewayAction::ResolveLeaveOnSend { reply });
                (self, acts)
            },
            GatewayInput::CommandChannelClosed => (GatewayState { running: false, ..self }, acts),
        }
    }

    fn step_event(self, ev: GatewayEvent) -> (r: (GatewayState, Vec<GatewayAction>))
        ensures
            r.0 == gw_step_event(self, ev).0,
            acts_match(r.1@, gw_step_event(self, ev).1),
    {
        let mut acts: Vec<GatewayAction> = Vec::new();
        match ev {
            GatewayEvent::Hello { heartbeat_interval_ms } => {
                let iv = match heartbeat_interval_ms {
                    Some(v) => v,
                    None => self.heartbeat_interval_ms,
                };
                acts.push(GatewayAction::StartHeartbeat { interval_ms: iv });
                if !self.identified {
                    acts.push(GatewayAction::SendIdentify);
                }
                proof {
                    let sp = gw_step_event(self, ev).1;
                    if self.identified {
                        assert(sp =~= seq![GatewayAction::StartHeartbeat { interval_ms: iv }]);
                    } else {
                        assert(sp =~= seq![
                            GatewayAction::StartHeartbeat { interval_ms: iv },
                            GatewayAction::SendIdentify,
                        ]);
                        assert(action_matches(acts@[1], sp[1]));
                    }
                    assert(action_matches(acts@[0], sp[0]));
                    assert(acts_match(acts@, sp));
                }
                (GatewayState { heartbeat_interval_ms: iv, identified: true, ..self }, acts)
            },
            GatewayEvent::HeartbeatAck => (self, acts),
            GatewayEvent::Ready { session_id, user_id } => {
                let s1 = GatewayState { session_id, user_id, ..self };
                s1.replay_queued_exec()
            },
            GatewayEvent::ReadySupplemental => self.replay_queued_exec(),
            GatewayEvent::VoiceState { user_id } => {
                let own = match &self.user_id {
                    Some(u) => u.eq(&user_id),
                    None => user_id.as_str().is_empty(),
                };
                proof {
                    if self.user_id is None && user_id@.len() == 0 {
                        assert(user_id@ =~= Seq::<char>::empty());
                    }
                    assert(own == (user_id@ == opt_or_empty(self.user_id)));
                }
                if own {
                    let s1 = GatewayState { own_state_seen: true, ..self };
                    s1.resolve_if_both_exec()
                } else {
                    (self, acts)
                }
            },
            GatewayEvent::VoiceServer { token, endpoint, guild_id } => {
                let s1 = GatewayState {
                    voice_token: token,
                    voice_endpoint: endpoint,
                    voice_guild_id: guild_id,
                    server_seen: true,
                    ..self
                };
                s1.resolve_if_both_exec()
            },
            GatewayEvent::Reconnect => (GatewayState { running: false, ..self }, acts),
            GatewayEvent::InvalidSession => {
                match self.pending_join {
                    Some(p) => {
                        acts.push(
                            GatewayAction::ResolveJoinErr {
                                reply: p.reply,
                                failure: JoinFailure::InvalidSession,
                            },
                        );
                        (GatewayState { running: false, pending_join: None, ..self }, acts)
                    },
                    None => (GatewayState { running: false, ..self }, acts),
                }
            },
            GatewayEvent::Ignored => (self, acts),
        }
    }

    fn replay_queued_exec(self) -> (r: (GatewayState, Vec<GatewayAction>))
        ensures
            r.0 == replay_queued(self).0,
            acts_match(r.1@, replay_queued(self).1),
    {
        let mut acts: Vec<GatewayAction> = Vec::new();
        match self.queued_join {
            Some(q) => {
                acts.push(
                    GatewayAction::SendJoin {
                        guild_id: q.guild_id.clone(),
                        channel_id: q.channel_id.clone(),
                    },
                );
                (
                    GatewayState {
                        queued_join: None,
                        pending_join: Some(q),
                        voice_token: None,
                        voice_endpoint: None,
                        voice_guild_id: None,
                        own_state_seen: false,
                        server_seen: false,
                        ..self
                    },
                    acts,
                )
            },
            None => (self, acts),
        }
    }

    fn resolve_if_both_exec(self) -> (r: (GatewayState, Vec<GatewayAction>))
        ensures
            r.0 == resolve_if_both(self).0,
            acts_match(r.1@, resolve_if_both(self).1),
    {
        let mut acts: Vec<GatewayAction> = Vec::new();
        match self.pending_join {
            Some(p) => {
                if self.own_state_seen && self.server_seen {
                    acts.push(
                        GatewayAction::ResolveJoinOk {
                            reply: p.reply,
                            token: self.voice_token,
                            endpoint: self.voice_endpoint,
                            guild_id: self.voice_guild_id,
                            session_id: self.session_id.clone(),
                            user_id: self.user_id.clone(),
                        },
                    );
                    (
                        GatewayState {
                            pending_join: None,
                            voice_token: None,
                            voice_endpoint: None,
                            voice_guild_id: None,
                            own_state_seen: false,
                            server_seen: false,
                            ..self
                        },
                        acts,
                    )
                } else {
                    (GatewayState { pending_join: Some(p), ..self }, acts)
                }
            },
            None => (self, acts),
        }
    }

    /// Resolve any still-pending and any still-queued join before the actor
    /// ends: no outstanding reply is left unresolved.
    pub fn finish(self) -> (r: (GatewayState, Vec<GatewayAction>))
        ensures
            r.0 == gw_finish(self).0,
            acts_match(r.1@, gw_finish(self).1),
    {
        let mut acts: Vec<GatewayAction> = Vec::new();
        match &self.pending_join {
            Some(p) => {
                acts.push(
                    GatewayAction::ResolveJoinErr {
                        reply: p.reply,
                        failure: JoinFailure::ConnectionClosed,
                    },
                );
            },
            None => {},
        }
        match &self.queued_join {
            Some(q) => {
                acts.push(
                    GatewayAction::ResolveJoinErr {
                        reply: q.reply,
                        failure: JoinFailure::ConnectionClosed,
                    },
                );
            },
            None => {},
        }
        proof {
            assert(acts_match(acts@, gw_finish(self).1));
        }
        (GatewayState { pending_join: None, queued_join: None, ..self }, acts)
    }
}

/// The input for an inbound voice-state update naming this user.
pub open spec fn owner_state_input(user_id: String) -> GatewayInput {
    GatewayInput::Frame(
        GatewayFrame { sequence: None, event: GatewayEvent::VoiceState { user_id } },
    )
}

/// The input for an inbound voice-server update.
pub open spec fn server_update_input(
    token: Option<String>,
    endpoint: Option<String>,
    guild_id: Option<String>,
) -> GatewayInput {
    GatewayInput::Frame(
        GatewayFrame { sequence: None, event: GatewayEvent::VoiceServer { token, endpoint, guild_id } },
    )
}

/// The input for a join command.
pub open spec fn join_command_input(guild_id: String, channel_id: String, reply: u64) -> GatewayInput {
    GatewayInput::Command(GatewayCommand::JoinVoice { guild_id, channel_id, reply })
}

/// The input for a leave command.
pub open spec fn leave_command_input(guild_id: String, reply: u64) -> GatewayInput {
    GatewayInput::Command(GatewayCommand::LeaveVoice { guild_id, reply })
}

/// The input for an inbound ready frame.
pub open spec fn ready_input(session_id: Option<String>, user_id: Option<String>) -> GatewayInput {
    GatewayInput::Frame(
        GatewayFrame { sequence: None, event: GatewayEvent::Ready { session_id, user_id } },
    )
}

/// For either arrival order of the owner's voice-state update and the
/// voice-server update, a pending join resolves exactly once — no resolution
/// before both have arrived, exactly one as the second arrives — and both
/// orders resolve with the same pieces.
pub proof fn lemma_join_resolves_once_either_order(
    s: GatewayState,
    p: JoinRequest,
    own_user: String,
    token: Option<String>,
    endpoint: Option<String>,
    guild_id: Option<String>,
)
    requires
        s.pending_join == Some(p),
        !s.own_state_seen,
        !s.server_seen,
        own_user@ == opt_or_empty(s.user_id),
    ensures
        gw_step(s, owner_state_input(own_user)).1 =~= Seq::<GatewayAction>::empty(),
        gw_step(s, server_update_input(token, endpoint, guild_id)).1 =~= Seq::<
            GatewayAction,
        >::empty(),
        gw_step(
            gw_step(s, owner_state_input(own_user)).0,
            server_update_input(token, endpoint, guild_id),
        ).1 =~= seq![
            GatewayAction::ResolveJoinOk {
                reply: p.reply,
                token,
                endpoint,
                guild_id,
                session_id: s.session_id,
                user_id: s.user_id,
            },
        ],
        gw_step(
            gw_step(s, server_update_input(token, endpoint, guild_id)).0,
            owner_state_input(own_user),
        ).1 =~= seq![
            GatewayAction::ResolveJoinOk {
                reply: p.reply,
                token,
                endpoint,
                guild_id,
                session_id: s.session_id,
                user_id: s.user_id,
            },
        ],
        gw_step(
            gw_step(s, owner_state_input(own_user)).0,
            server_update_input(token, endpoint, guild_id),
        ).0.pending_join is None,
        gw_step(
            gw_step(s, server_update_input(token, endpoint, guild_id)).0,
            owner_state_input(own_user),
        ).0.pending_join is None,
{
}

/// A second join while one is pending fails the first as superseded; only
/// the second remains tracked, and nothing else resolves in that step.
pub proof fn lemma_join_supersedes_pending(
    s: GatewayState,
    p: JoinRequest,
    guild_id: String,
    channel_id: String,
    reply: u64,
)
    requires
        s.session_id is Some,
        s.pending_join == Some(p),
    ensures
        gw_step(s, join_command_input(guild_id, channel_id, reply)).0.pending_join == Some(
            JoinRequest { guild_id, channel_id, reply },
        ),
        gw_step(s, join_command_input(guild_id, channel_id, reply)).1.len() == 4,
        gw_step(s, join_command_input(guild_id, channel_id, reply)).1[0]
            == (GatewayAction::ResolveJoinErr { reply: p.reply, failure: JoinFailure::Superseded }),
        forall|i: int|
            1 <= i < 4 ==> !(#[trigger] gw_step(s, join_command_input(guild_id, channel_id, reply)).1[i]
                is ResolveJoinErr) && !(gw_step(
                s,
                join_command_input(guild_id, channel_id, reply),
            ).1[i] is ResolveJoinOk),
{
    let r = gw_step(s, join_command_input(guild_id, channel_id, reply));
    assert(r.1[1] is SendLeave);
    assert(r.1[2] is DelayMs);
    assert(r.1[3] is SendJoin);
}

/// A leave resolves right at its frame send: the step leaves the state
/// untouched — nothing is recorded that a later event could resolve — and
/// its reply is answered by the send outcome alone.
pub proof fn lemma_leave_resolves_at_send(s: GatewayState, guild_id: String, reply: u64)
    ensures
        gw_step(s, leave_command_input(guild_id, reply)).0 == s,
        gw_step(s, leave_command_input(guild_id, reply)).1 =~= seq![
            GatewayAction::SendLeave { guild_id },
            GatewayAction::ResolveLeaveOnSend { reply },
        ],
{
}

/// A join issued before ready is queued; a newer one supersedes the queued
/// one; at ready exactly the surviving request is replayed as a pending join.
pub proof fn lemma_queued_join_replayed(
    s: GatewayState,
    g1: String,
    c1: String,
    r1: u64,
    g2: String,
    c2: String,
    r2: u64,
    session_id: Option<String>,
    user_id: Option<String>,
)
    requires
        s.session_id is None,
        s.queued_join is None,
        session_id is Some,
    ensures
        ({
            let s1 = gw_step(s, join_command_input(g1, c1, r1));
            s1.1 =~= Seq::<GatewayAction>::empty() && s1.0.queued_join == Some(
                JoinRequest { guild_id: g1, channel_id: c1, reply: r1 },
            )
        }),
        ({
            let s1 = gw_step(s, join_command_input(g1, c1, r1)).0;
            let s2 = gw_step(s1, join_command_input(g2, c2, r2));
            s2.1 =~= seq![
                GatewayAction::ResolveJoinErr { reply: r1, failure: JoinFailure::Superseded },
            ] && s2.0.queued_join == Some(JoinRequest { guild_id: g2, channel_id: c2, reply: r2 })
        }),
        ({
            let s1 = gw_step(s, join_command_input(g1, c1, r1)).0;
            let s2 = gw_step(s1, join_command_input(g2, c2, r2)).0;
            let s3 = gw_step(s2, ready_input(session_id, user_id));
            s3.0.pending_join == Some(JoinRequest { guild_id: g2, channel_id: c2, reply: r2 })
                && s3.0.queued_join is None && s3.1 =~= seq![
                GatewayAction::SendJoin { guild_id: g2, channel_id: c2 },
            ]
        }),
{
}

impl JoinFailure {
    /// The failure's message, as a caller's error body carries it.
    pub fn message(&self) -> (r: String)
        ensures
            *self is Superseded ==> r@ == "Superseded by new join request"@,
            *self is InvalidSession ==> r@ == "Discord session invalid"@,
            *self is ConnectionClosed ==> r@ == "Gateway connection closed"@,
            *self is SendFailed ==> r@ == "Failed to send voice state update"@,
            *self is ConnectFailed ==> r@ == "Gateway connection failed"@,
    {
        match self {
            JoinFailure::Superseded => String::from_str("Superseded by new join request"),
            JoinFailure::InvalidSession => String::from_str("Discord session invalid"),
            JoinFailure::ConnectionClosed => String::from_str("Gateway connection closed"),
            JoinFailure::SendFailed => String::from_str("Failed to send voice state update"),
            JoinFailure::ConnectFailed => String::from_str("Gateway connection failed"),
        }
    }
}

/// How a leave reply is resolved from its frame-send outcome: success if and
/// only if the frame went out.
pub fn leave_resolution(send_ok: bool) -> (r: Result<(), String>)
    ensures
        send_ok <==> r is Ok,
        r matches Err(m) ==> m@ == "Failed to send voice leave"@,
{
    if send_ok {
        Ok(())
    } else {
        Err(String::from_str("Failed to send voice leave"))
    }
}

/// Assemble the reply value from a successful resolution's pieces; absent
/// text stands for empty text.
pub fn assemble_info(
    token: Option<String>,
    endpoint: Option<String>,
    guild_id: Option<String>,
    session_id: Option<String>,
    user_id: Option<String>,
) -> (r: VoiceServerInfo)
    ensures
        r.token@ == opt_or_empty(token),
        r.endpoint == endpoint,
        r.guild_id == guild_id,
        r.session_id@ == opt_or_empty(session_id),
        r.user_id@ == opt_or_empty(user_id),
{
    VoiceServerInfo {
        token: match token {
            Some(t) => t,
            None => String::new(),
        },
        endpoint,
        guild_id,
        session_id: match session_id {
            Some(t) => t,
            None => String::new(),
        },
        user_id: match user_id {
            Some(t) => t,
            None => String::new(),
        },
    }
}

} // verus!
