//! The live voice-presence cache: which users occupy which voice channel in
//! which guild. Written only by a session actor from voice-state events and
//! read by callers, optionally filtered by channel.

use vstd::prelude::*;

use crate::frames::{avatar_url, avatar_url_spec};
use crate::text::str_eq;

verus! {

broadcast use vstd::seq_lib::group_seq_properties;

/// A user's live voice presence; no channel means the user left.
pub struct VoiceParticipant {
    pub user_id: String,
    pub channel_id: Option<String>,
    pub display_name: Option<String>,
    pub avatar_url: Option<String>,
}

/// One cache row: a participant within a guild.
pub struct PresenceEntry {
    pub guild_id: String,
    pub participant: VoiceParticipant,
}

/// The cache: rows keyed by (guild, user).
pub struct PresenceState {
    pub entries: Vec<PresenceEntry>,
}

/// Whether a row carries this (guild, user) key.
pub open spec fn key_is(e: PresenceEntry, guild: Seq<char>, user: Seq<char>) -> bool {
    e.guild_id@ == guild && e.participant.user_id@ == user
}

/// Whether a participant passes an optional channel filter.
pub open spec fn channel_matches(p: VoiceParticipant, filter: Option<&str>) -> bool {
    match filter {
        Some(c) => match p.channel_id {
            Some(pc) => pc@ == c@,
            None => false,
        },
        None => true,
    }
}

fn opt_string_dup(o: &Option<String>) -> (r: Option<String>)
    ensures
        r == *o,
{
    match o {
        Some(s) => Some(s.clone()),
        None => None,
    }
}

fn participant_dup(p: &VoiceParticipant) -> (r: VoiceParticipant)
    ensures
        r == *p,
{
    VoiceParticipant {
        user_id: p.user_id.clone(),
        channel_id: opt_string_dup(&p.channel_id),
        display_name: opt_string_dup(&p.display_name),
        avatar_url: opt_string_dup(&p.avatar_url),
    }
}

fn entry_dup(e: &PresenceEntry) -> (r: PresenceEntry)
    ensures
        r == *e,
{
    PresenceEntry { guild_id: e.guild_id.clone(), participant: participant_dup(&e.participant) }
}

impl PresenceState {
    /// An empty cache.
    pub fn new() -> (r: PresenceState)
        ensures
            r.entries@.len() == 0,
    {
        PresenceState { entries: Vec::new() }
    }

    /// Record one voice-state event: a participant without a channel is
    /// removed from the guild, any other inserted or overwritten under the
    /// (guild, user) key. Rows under other keys are untouched.
    pub fn apply(&mut self, guild_id: String, p: VoiceParticipant)
        ensures
            p.channel_id is None ==> (forall|e: PresenceEntry| #[trigger]
                final(self).entries@.contains(e) <==> (old(self).entries@.contains(e) && !key_is(
                    e,
                    guild_id@,
                    p.user_id@,
                ))),
            p.channel_id is Some ==> (forall|e: PresenceEntry| #[trigger]
                final(self).entries@.contains(e) <==> ((old(self).entries@.contains(e) && !key_is(
                    e,
                    guild_id@,
                    p.user_id@,
                )) || e == (PresenceEntry { guild_id, participant: p }))),
    {
        let ghost g: Seq<char> = guild_id@;
        let ghost u: Seq<char> = p.user_id@;
        let n = self.entries.len();
        let mut out: Vec<PresenceEntry> = Vec::new();
        let mut i: usize = 0;
        while i < n
            invariant
                i <= n,
                n == self.entries@.len(),
                self.entries@ == old(self).entries@,
                g == guild_id@,
                u == p.user_id@,
                forall|e: PresenceEntry| #[trigger]
                    out@.contains(e) <==> (self.entries@.subrange(0, i as int).contains(e)
                        && !key_is(e, g, u)),
            decreases n - i,
        {
            let e = &self.entries[i];
            let keep = !(str_eq(e.guild_id.as_str(), guild_id.as_str()) && str_eq(
                e.participant.user_id.as_str(),
                p.user_id.as_str(),
            ));
            if keep {
                out.push(entry_dup(e));
            }
            proof {
                assert(self.entries@.subrange(0, (i + 1) as int) =~= self.entries@.subrange(
                    0,
                    i as int,
                ).push(self.entries@[i as int]));
            }
            i = i + 1;
        }
        proof {
            assert(self.entries@.subrange(0, n as int) =~= self.entries@);
        }
        if p.channel_id.is_some() {
            out.push(PresenceEntry { guild_id, participant: p });
        }
        self.entries = out;
    }

    /// The participants of a guild, optionally only those in one channel.
    pub fn participants_in(&self, guild_id: &str, channel_id: Option<&str>) -> (r: Vec<
        VoiceParticipant,
    >)
        ensures
            forall|q: VoiceParticipant| #[trigger]
                r@.contains(q) ==> exists|e: PresenceEntry|
                    #[trigger] self.entries@.contains(e) && e.guild_id@ == guild_id@
                        && e.participant == q && channel_matches(q, channel_id),
            forall|e: PresenceEntry| #[trigger]
                self.entries@.contains(e) && e.guild_id@ == guild_id@ && channel_matches(
                    e.participant,
                    channel_id,
                ) ==> r@.contains(e.participant),
    {
        let n = self.entries.len();
        let mut r: Vec<VoiceParticipant> = Vec::new();
        let mut i: usize = 0;
        while i < n
            invariant
                i <= n,
                n == self.entries@.len(),
                forall|q: VoiceParticipant| #[trigger]
                    r@.contains(q) ==> exists|e: PresenceEntry|
                        #[trigger] self.entries@.contains(e) && e.guild_id@ == guild_id@
                            && e.participant == q && channel_matches(q, channel_id),
                forall|e: PresenceEntry| #[trigger]
                    self.entries@.subrange(0, i as int).contains(e) && e.guild_id@ == guild_id@
                        && channel_matches(e.participant, channel_id) ==> r@.contains(
                        e.participant,
                    ),
            decreases n - i,
        {
            let e = &self.entries[i];
            let in_guild = str_eq(e.guild_id.as_str(), guild_id);
            let in_channel = match channel_id {
                Some(c) => match &e.participant.channel_id {
                    Some(pc) => str_eq(pc.as_str(), c),
                    None => false,
                },
                None => true,
            };
            if in_guild && in_channel {
                let q = participant_dup(&e.participant);
                proof {
                    assert(self.entries@.contains(self.entries@[i as int]));
                }
                r.push(q);
            }
            proof {
                assert(self.entries@.subrange(0, (i + 1) as int) =~= self.entries@.subrange(
                    0,
                    i as int,
                ).push(self.entries@[i as int]));
            }
            i = i + 1;
        }
        proof {
            assert(self.entries@.subrange(0, n as int) =~= self.entries@);
        }
        r
    }
}

/// Build a participant from the fields of a voice-state event: the display
/// name falls back from nickname to global name to username, and the avatar
/// URL is derived from the avatar hash.
pub fn participant_of_event(
    user_id: String,
    channel_id: Option<String>,
    nick: Option<String>,
    global_name: Option<String>,
    username: Option<String>,
    avatar_hash: Option<String>,
) -> (r: VoiceParticipant)
    ensures
        r.user_id == user_id,
        r.channel_id == channel_id,
        r.display_name == (if nick is Some {
            nick
        } else if global_name is Some {
            global_name
        } else {
            username
        }),
        (match avatar_hash {
            Some(h) => r.avatar_url matches Some(a) && a@ == avatar_url_spec(user_id@, h@),
            None => r.avatar_url is None,
        }),
{
    let display_name = match nick {
        Some(n) => Some(n),
        None => match global_name {
            Some(gn) => Some(gn),
            None => username,
        },
    };
    let av = match avatar_hash {
        Some(h) => Some(avatar_url(user_id.as_str(), h.as_str())),
        None => None,
    };
    VoiceParticipant { user_id, channel_id, display_name, avatar_url: av }
}

} // verus!
