//! The command surface: the four commands and the playback-controller
//! decisions each one makes against a session.
//!
//! Every transport call (join, teardown, skip confirmation) happens
//! outside; its outcome comes back in as a plain value, and the functions
//! here say exactly how the session state and the user-visible result
//! follow from it.

use vstd::prelude::*;

use crate::errors::CommandError;
use crate::session::{SessionRegistry, VoiceSession, VoipContext};
use crate::track::Track;

verus! {

/// One argument a command accepts.
pub struct CommandOption {
    pub name: String,
    pub description: String,
    pub required: bool,
}

/// A command descriptor: what the gateway registers for the command.
pub struct CommandInfo {
    pub name: String,
    pub description: String,
    pub options: Vec<CommandOption>,
}

/// The play command: resolve a search term to a track and queue it.
pub struct Play;

/// The queue command: show the current track and the upcoming entries.
/// Its whole behaviour is the read-only view in `crate::summary`:
/// `queue_response` builds the lines of its embed.
pub struct Queue;

/// The skip command: advance past the currently playing track.
pub struct Skip;

/// The leave command: drop the voice session and its queue.
pub struct Leave;

impl Play {
    /// The search argument, when the command carried one.
    pub fn validate_search_term(arg: Option<String>) -> (r: Result<String, CommandError>)
        ensures
            match (arg, r) {
                (Some(s), Ok(t)) => t@ == s@,
                (None, Err(e)) => e == CommandError::MissingArgument,
                _ => false,
            },
    {
        match arg {
            Some(s) => Ok(s),
            None => Err(CommandError::MissingArgument),
        }
    }

    /// Appends a resolved track to the session's queue.  The result says
    /// whether playback starts right now: true exactly when the queue was
    /// empty before the append, so the new track became the front - both
    /// the current track and the sole entry.
    pub fn enqueue(session: &mut VoiceSession, track: Track) -> (started: bool)
        ensures
            final(session).queue@ == old(session).queue@.push(track),
            final(session).channel_id == old(session).channel_id,
            started == (old(session).queue@.len() == 0),
    {
        let started = session.queue.len() == 0;
        session.queue.push(track);
        started
    }

    /// The response heading for an enqueue: "Playing" when the track
    /// starts right now, "Added to queue" when earlier tracks come first.
    pub fn embed_title(started: bool) -> (r: String)
        ensures
            started ==> r@ == "Playing"@,
            !started ==> r@ == "Added to queue"@,
    {
        if started {
            "Playing".to_owned()
        } else {
            "Added to queue".to_owned()
        }
    }

    pub fn info() -> (r: CommandInfo)
        ensures
            r.name@ == "play"@,
            r.description@ == "Play a YouTube video or any music/video file"@,
            r.options@.len() == 1,
            r.options@[0].name@ == "search"@,
            r.options@[0].description@ == "Search term or a link to a YouTube video or a file"@,
            r.options@[0].required,
    {
        let mut options: Vec<CommandOption> = Vec::new();
        options.push(
            CommandOption {
                name: "search".to_owned(),
                description: "Search term or a link to a YouTube video or a file".to_owned(),
                required: true,
            },
        );
        CommandInfo {
            name: "play".to_owned(),
            description: "Play a YouTube video or any music/video file".to_owned(),
            options,
        }
    }
}

impl Skip {
    /// What a skip will remove: the current track's metadata, captured
    /// before the transport call, since after the skip that track is no
    /// longer addressable.  An empty queue has nothing to skip.
    pub fn decide(session: &VoiceSession) -> (r: Result<Track, CommandError>)
        ensures
            match r {
                Ok(t) => session.queue@.len() > 0 && t@ == session.queue@[0]@,
                Err(e) => session.queue@.len() == 0 && e == CommandError::NothingToPlay,
            },
    {
        if session.queue.len() > 0 {
            Ok(session.queue[0].duplicate())
        } else {
            Err(CommandError::NothingToPlay)
        }
    }

    /// Settles a skip after the transport answered.  Only a confirmed
    /// skip removes the front track; on a transport error nothing is
    /// removed - a skip never happens speculatively.
    pub fn conclude(session: &mut VoiceSession, transport_ok: bool) -> (r: Result<
        (),
        CommandError,
    >)
        requires
            old(session).queue@.len() > 0,
        ensures
            transport_ok ==> {
                &&& final(session).queue@ == old(session).queue@.drop_first()
                &&& final(session).channel_id == old(session).channel_id
                &&& r == Ok::<(), CommandError>(())
            },
            !transport_ok ==> {
                &&& *final(session) == *old(session)
                &&& r == Err::<(), CommandError>(CommandError::SkipFailed)
            },
    {
        if transport_ok {
            session.queue.remove(0);
            proof {
                assert(session.queue@ =~= old(session).queue@.drop_first());
            }
            Ok(())
        } else {
            Err(CommandError::SkipFailed)
        }
    }

    pub fn info() -> (r: CommandInfo)
        ensures
            r.name@ == "skip"@,
            r.description@ == "Skip the currently playing song"@,
            r.options@.len() == 0,
    {
        CommandInfo {
            name: "skip".to_owned(),
            description: "Skip the currently playing song".to_owned(),
            options: Vec::new(),
        }
    }
}

impl Leave {
    /// Whether the issuer may drop the session: only a user inside the
    /// active session's very channel may, and without an active session
    /// there is nothing to leave.
    pub fn decide(registry: &SessionRegistry, ctx: VoipContext) -> (r: Result<(), CommandError>)
        ensures
            !registry.sessions().contains_key(ctx.guild_id) ==> r == Err::<(), CommandError>(
                CommandError::NotInVoice,
            ),
            registry.sessions().contains_key(ctx.guild_id) && registry.sessions().index(
                ctx.guild_id,
            ).channel_id != ctx.channel_id ==> r == Err::<(), CommandError>(
                CommandError::VoiceMismatch,
            ),
            registry.sessions().contains_key(ctx.guild_id) && registry.sessions().index(
                ctx.guild_id,
            ).channel_id == ctx.channel_id ==> r == Ok::<(), CommandError>(()),
    {
        let channel: Option<u64> = match registry.session(ctx.guild_id) {
            Some(s) => Some(s.channel_id),
            None => None,
        };
        match channel {
            None => Err(CommandError::NotInVoice),
            Some(c) => {
                if c != ctx.channel_id {
                    Err(CommandError::VoiceMismatch)
                } else {
                    Ok(())
                }
            },
        }
    }

    /// Settles a leave.  A cross-channel issuer is refused and the
    /// session stays in the registry untouched; a matching issuer's
    /// session is removed whatever the transport teardown said, though a
    /// teardown failure is still reported.
    pub fn apply(registry: &mut SessionRegistry, ctx: VoipContext, teardown_ok: bool) -> (r: Result<
        (),
        CommandError,
    >)
        ensures
            !old(registry).sessions().contains_key(ctx.guild_id) ==> {
                &&& final(registry).sessions() == old(registry).sessions()
                &&& r == Err::<(), CommandError>(CommandError::NotInVoice)
            },
            old(registry).sessions().contains_key(ctx.guild_id) && old(registry).sessions().index(
                ctx.guild_id,
            ).channel_id != ctx.channel_id ==> {
                &&& final(registry).sessions() == old(registry).sessions()
                &&& final(registry).sessions().contains_key(ctx.guild_id)
                &&& r == Err::<(), CommandError>(CommandError::VoiceMismatch)
            },
            old(registry).sessions().contains_key(ctx.guild_id) && old(registry).sessions().index(
                ctx.guild_id,
            ).channel_id == ctx.channel_id ==> {
                &&& final(registry).sessions() == old(registry).sessions().remove(ctx.guild_id)
                &&& r == if teardown_ok {
                    Ok::<(), CommandError>(())
                } else {
                    Err::<(), CommandError>(CommandError::LeaveFailed)
                }
            },
    {
        let channel: Option<u64> = match registry.session(ctx.guild_id) {
            Some(s) => Some(s.channel_id),
            None => None,
        };
        match channel {
            None => Err(CommandError::NotInVoice),
            Some(c) => {
                if c != ctx.channel_id {
                    Err(CommandError::VoiceMismatch)
                } else {
                    registry.remove_session(ctx.guild_id, teardown_ok)
                }
            },
        }
    }

    pub fn info() -> (r: CommandInfo)
        ensures
            r.name@ == "leave"@,
            r.description@ == "Leave voice channel"@,
            r.options@.len() == 0,
    {
        CommandInfo {
            name: "leave".to_owned(),
            description: "Leave voice channel".to_owned(),
            options: Vec::new(),
        }
    }
}

impl Queue {
    pub fn info() -> (r: CommandInfo)
        ensures
            r.name@ == "queue"@,
            r.description@ == "View currently queued songs"@,
            r.options@.len() == 0,
    {
        CommandInfo {
            name: "queue".to_owned(),
            description: "View currently queued songs".to_owned(),
            options: Vec::new(),
        }
    }
}

/// Enqueues against one session observe a total order: two appends, in
/// the order the transport accepted them, leave a queue holding both new
/// tracks in that order behind the untouched earlier entries - no
/// position lost, none duplicated.
pub proof fn lemma_enqueue_total_order(q0: Seq<Track>, a: Track, b: Track)
    ensures
        q0.push(a).push(b).len() == q0.len() + 2,
        q0.push(a).push(b)[q0.len() as int] == a,
        q0.push(a).push(b)[q0.len() as int + 1] == b,
        forall|i: int| 0 <= i < q0.len() ==> q0.push(a).push(b)[i] == q0[i],
{
}

} // verus!
