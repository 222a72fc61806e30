//! Voice sessions, the process-wide session registry, and the issuer's
//! voice-channel context that every command is validated against.

use std::collections::HashMap;
use vstd::prelude::*;

use crate::errors::CommandError;
use crate::track::Track;

verus! {

broadcast use vstd::std_specs::hash::group_hash_axioms;

/// The issuer's resolved voice context for one command: the session scope
/// the command addresses and the voice channel the issuer occupies right
/// now.  Ephemeral: recomputed for every command, never stored.
#[derive(Clone, Copy, Debug, PartialEq, Eq, Structural)]
pub struct VoipContext {
    pub guild_id: u64,
    pub channel_id: u64,
}

/// Resolves the issuer's voice context from their current voice channel,
/// as the gateway reports it.  An issuer in no voice channel cannot
/// address a session.
pub fn resolve_voip(guild_id: u64, issuer_channel: Option<u64>) -> (r: Result<
    VoipContext,
    CommandError,
>)
    ensures
        match issuer_channel {
            Some(c) => r == Ok::<VoipContext, CommandError>(
                VoipContext { guild_id, channel_id: c },
            ),
            None => r == Err::<VoipContext, CommandError>(CommandError::NotInVoice),
        },
{
    match issuer_channel {
        Some(c) => Ok(VoipContext { guild_id, channel_id: c }),
        None => Err(CommandError::NotInVoice),
    }
}

/// An active connection to one voice channel within one session scope:
/// the joined channel and the ordered track queue.  The front of the
/// queue is the currently playing track; new tracks append at the back,
/// and only the front is ever removed.
pub struct VoiceSession {
    pub channel_id: u64,
    pub queue: Vec<Track>,
}

impl VoiceSession {
    /// A fresh session on `channel_id` with an empty queue.
    pub fn new(channel_id: u64) -> (r: VoiceSession)
        ensures
            r.channel_id == channel_id,
            r.queue@.len() == 0,
    {
        VoiceSession { channel_id, queue: Vec::new() }
    }

    /// The currently playing track, when one exists: the queue's front.
    pub fn current(&self) -> (r: Option<&Track>)
        ensures
            match r {
                Some(t) => self.queue@.len() > 0 && *t == self.queue@[0],
                None => self.queue@.len() == 0,
            },
    {
        if self.queue.len() > 0 {
            Some(&self.queue[0])
        } else {
            None
        }
    }
}

/// The process-wide registry: at most one live voice session per session
/// scope.  It alone owns the sessions; entries appear and vanish only
/// through the operations below.
pub struct SessionRegistry {
    map: HashMap<u64, VoiceSession>,
}

impl SessionRegistry {
    /// All live sessions, keyed by session scope.
    pub closed spec fn sessions(&self) -> Map<u64, VoiceSession> {
        self.map@
    }

    /// An empty registry: the state at process start.
    pub fn new() -> (r: SessionRegistry)
        ensures
            r.sessions() == Map::<u64, VoiceSession>::empty(),
    {
        SessionRegistry { map: HashMap::new() }
    }

    /// The live session for `guild_id`, if one exists.
    pub fn session(&self, guild_id: u64) -> (r: Option<&VoiceSession>)
        ensures
            match r {
                Some(s) => self.sessions().contains_key(guild_id) && *s
                    == self.sessions().index(guild_id),
                None => !self.sessions().contains_key(guild_id),
            },
    {
        self.map.get(&guild_id)
    }

    /// True iff a live session exists for the context's scope and sits in
    /// the very channel the issuer occupies.  Every cross-channel control
    /// attempt is rejected through this test.
    pub fn matches_active_session(&self, ctx: VoipContext) -> (r: bool)
        ensures
            r == (self.sessions().contains_key(ctx.guild_id)
                && self.sessions().index(ctx.guild_id).channel_id == ctx.channel_id),
    {
        match self.map.get(&ctx.guild_id) {
            Some(s) => s.channel_id == ctx.channel_id,
            None => false,
        }
    }

    /// True iff serving the context needs a fresh transport join: there is
    /// no session for the scope, or the session sits in another channel.
    pub fn needs_join(&self, ctx: VoipContext) -> (r: bool)
        ensures
            r == !(self.sessions().contains_key(ctx.guild_id)
                && self.sessions().index(ctx.guild_id).channel_id == ctx.channel_id),
    {
        !self.matches_active_session(ctx)
    }

    /// Publishes the session after the voice transport accepted a join:
    /// a fresh session on the issuer's channel replaces any prior session
    /// for the scope, and the prior queue is discarded (switching channels
    /// starts over by design).  On a transport failure this is never
    /// called, so a failed join leaves the registry unchanged.
    pub fn apply_join(&mut self, ctx: VoipContext)
        ensures
            final(self).sessions().dom() == old(self).sessions().dom().insert(ctx.guild_id),
            final(self).sessions()[ctx.guild_id].channel_id == ctx.channel_id,
            final(self).sessions()[ctx.guild_id].queue@.len() == 0,
            forall|g: u64|
                g != ctx.guild_id && old(self).sessions().contains_key(g)
                    ==> final(self).sessions().contains_key(g)
                    && final(self).sessions()[g] == old(self).sessions()[g],
    {
        self.map.insert(ctx.guild_id, VoiceSession::new(ctx.channel_id));
        proof {
            assert(self.sessions().dom() =~= old(self).sessions().dom().insert(ctx.guild_id));
        }
    }

    /// Removes the scope's session after a leave.  The entry goes away
    /// whatever the transport teardown said - a teardown failure must not
    /// leak a zombie entry - but that failure is still surfaced to the
    /// caller.
    pub fn remove_session(&mut self, guild_id: u64, teardown_ok: bool) -> (r: Result<
        (),
        CommandError,
    >)
        ensures
            final(self).sessions() == old(self).sessions().remove(guild_id),
            r == if teardown_ok {
                Ok::<(), CommandError>(())
            } else {
                Err::<(), CommandError>(CommandError::LeaveFailed)
            },
    {
        self.map.remove(&guild_id);
        if teardown_ok {
            Ok(())
        } else {
            Err(CommandError::LeaveFailed)
        }
    }

    /// Takes the scope's session out for one exclusive operation; the
    /// session registry serializes mutating access per session, and a
    /// taken session is handed back through `put_session` when the
    /// operation ends.
    pub fn take_session(&mut self, guild_id: u64) -> (r: Option<VoiceSession>)
        ensures
            match r {
                Some(s) => old(self).sessions().contains_key(guild_id)
                    && s == old(self).sessions()[guild_id]
                    && final(self).sessions() == old(self).sessions().remove(guild_id),
                None => !old(self).sessions().contains_key(guild_id) && final(self).sessions()
                    == old(self).sessions(),
            },
    {
        self.map.remove(&guild_id)
    }

    /// Hands a taken session back to the registry.
    pub fn put_session(&mut self, guild_id: u64, s: VoiceSession)
        ensures
            final(self).sessions() == old(self).sessions().insert(guild_id, s),
    {
        self.map.insert(guild_id, s);
    }
}

} // verus!
