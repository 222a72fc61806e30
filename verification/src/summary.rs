//! The queue & metadata view: the read-only projection of a session's
//! queue into counts, remaining time, per-track display data, and the
//! strings the response embeds are built from.

use vstd::prelude::*;

use crate::duration::{
    dec_string, format_duration, format_duration_live, spec_dec, spec_format_duration,
    spec_is_live, spec_live_text,
};
use crate::errors::CommandError;
use crate::session::VoiceSession;
use crate::text::{
    format_with_url, remove_md_characters, spec_link_markup, spec_strip_md, spec_truncate_title,
    truncate_title,
};
use crate::track::{clone_opt_string, Track};

verus! {

/// What a track contributes to the queue's remaining time: its duration
/// hint, or nothing for a live / indefinite track.
pub open spec fn spec_hint_secs(t: Track) -> nat {
    match t.duration_secs {
        Some(s) => s as nat,
        None => 0,
    }
}

/// The sum of every queued track's duration hint, in seconds.
pub open spec fn spec_total_secs(q: Seq<Track>) -> nat
    decreases q.len(),
{
    if q.len() == 0 {
        0
    } else {
        spec_total_secs(q.drop_last()) + spec_hint_secs(q.last())
    }
}

/// The remaining-time sum as a `u64`, saturating at the type's bound.
pub open spec fn spec_total_capped(q: Seq<Track>) -> nat {
    if spec_total_secs(q) <= u64::MAX as nat {
        spec_total_secs(q)
    } else {
        u64::MAX as nat
    }
}

/// Whether any track in `q` is live / indefinite.
pub open spec fn spec_any_live(q: Seq<Track>) -> bool {
    exists|i: int| 0 <= i < q.len() && spec_is_live(#[trigger] q[i].duration_secs)
}

fn is_live_hint(d: Option<u64>) -> (r: bool)
    ensures
        r == spec_is_live(d),
{
    match d {
        None => true,
        Some(s) => s == 0,
    }
}

/// Queue length, remaining duration and live flag in one pass; the view
/// the footers are computed from.
pub fn get_queue_length_and_duration(queue: &Vec<Track>) -> (r: (usize, u64, bool))
    ensures
        r.0 == queue@.len(),
        r.1 as nat == spec_total_capped(queue@),
        r.2 == spec_any_live(queue@),
{
    let mut total: u64 = 0;
    let mut live = false;
    let mut i: usize = 0;
    let n = queue.len();
    proof {
        assert(queue@.take(0) =~= Seq::<Track>::empty());
    }
    while i < n
        invariant
            i <= n,
            n == queue@.len(),
            total as nat == spec_total_capped(queue@.take(i as int)),
            live == spec_any_live(queue@.take(i as int)),
        decreases n - i,
    {
        let hint: u64 = match queue[i].duration_secs {
            Some(s) => s,
            None => 0,
        };
        let this_live = is_live_hint(queue[i].duration_secs);
        proof {
            assert(queue@.take(i + 1).drop_last() =~= queue@.take(i as int));
            assert(queue@.take(i + 1).last() == queue@[i as int]);
        }
        total = match total.checked_add(hint) {
            Some(t) => t,
            None => u64::MAX,
        };
        live = live || this_live;
        proof {
            let taken = queue@.take(i + 1);
            if live {
                if this_live {
                    assert(spec_is_live(taken[i as int].duration_secs));
                } else {
                    let j = choose|j: int|
                        0 <= j < i && spec_is_live(#[trigger] queue@.take(i as int)[j].duration_secs);
                    assert(spec_is_live(taken[j].duration_secs));
                }
            } else {
                assert forall|j: int| 0 <= j < taken.len() implies !spec_is_live(
                    #[trigger] taken[j].duration_secs,
                ) by {
                    if j < i {
                        assert(!spec_is_live(queue@.take(i as int)[j].duration_secs));
                    }
                }
            }
        }
        i = i + 1;
    }
    proof {
        assert(queue@.take(n as int) =~= queue@);
    }
    (n, total, live)
}

/// Per-track display data: cleaned bounded title, untouched links, and
/// the duration display with its live flag.
pub struct TrackView {
    pub title: String,
    pub url: Option<String>,
    pub thumbnail: Option<String>,
    pub duration_display: String,
    pub is_live: bool,
}

/// A title as displayed: cut to the component's bound, then stripped of
/// markup glyphs.
pub open spec fn spec_display_title(title: Seq<char>, bound: int) -> Seq<char> {
    spec_strip_md(spec_truncate_title(title, bound))
}

/// The duration cell for a track: `LIVE`, or its formatted length.
pub open spec fn spec_duration_cell(t: Track) -> Seq<char> {
    if spec_is_live(t.duration_secs) {
        spec_live_text()
    } else {
        spec_format_duration(
            match t.duration_secs {
                Some(s) => s,
                None => 0u64,
            },
        )
    }
}

/// `v` is the display view of `t` under the given title bound.
pub open spec fn spec_is_view_of(v: TrackView, t: Track, bound: int) -> bool {
    &&& v.title@ == spec_display_title(t.title@, bound)
    &&& (match (v.url, t.url) {
        (Some(a), Some(b)) => a@ == b@,
        (None, None) => true,
        _ => false,
    })
    &&& (match (v.thumbnail, t.thumbnail) {
        (Some(a), Some(b)) => a@ == b@,
        (None, None) => true,
        _ => false,
    })
    &&& v.is_live == spec_is_live(t.duration_secs)
    &&& v.duration_display@ == spec_duration_cell(t)
}

/// The display view of one track under a title bound.
pub fn make_track_view(t: &Track, bound: usize) -> (r: TrackView)
    requires
        bound >= 3,
    ensures
        spec_is_view_of(r, *t, bound as int),
{
    let cut = truncate_title(t.title.as_str(), bound);
    let title = remove_md_characters(cut.as_str());
    let (duration_display, is_live) = format_duration_live(t.duration_secs, t.title.as_str());
    TrackView {
        title,
        url: clone_opt_string(&t.url),
        thumbnail: clone_opt_string(&t.thumbnail),
        duration_display,
        is_live,
    }
}

/// How many upcoming entries the view shows: the queue behind the current
/// track, truncated to four entries.
pub open spec fn spec_upcoming_limit(len: int) -> int {
    if len <= 0 {
        0
    } else if len - 1 > 4 {
        4
    } else {
        len - 1
    }
}

/// The full read-only projection of one session's queue.
pub struct QueueSummary {
    pub count: usize,
    pub total_secs: u64,
    pub has_live: bool,
    pub current: Option<TrackView>,
    pub upcoming: Vec<TrackView>,
}

/// Summarizes a session's queue: the true count, the capped sum of the
/// duration hints (live tracks contribute nothing but raise the live
/// flag), the current track's view under the 70-character title bound,
/// and at most four upcoming views under the 40-character bound.
pub fn summarize(session: &VoiceSession) -> (r: QueueSummary)
    ensures
        r.count == session.queue@.len(),
        r.total_secs as nat == spec_total_capped(session.queue@),
        r.has_live == spec_any_live(session.queue@),
        match r.current {
            Some(v) => session.queue@.len() > 0 && spec_is_view_of(v, session.queue@[0], 70),
            None => session.queue@.len() == 0,
        },
        r.upcoming@.len() == spec_upcoming_limit(session.queue@.len() as int),
        forall|j: int|
            0 <= j < r.upcoming@.len() ==> spec_is_view_of(
                #[trigger] r.upcoming@[j],
                session.queue@[j + 1],
                40,
            ),
{
    let (count, total_secs, has_live) = get_queue_length_and_duration(&session.queue);
    let current = if count > 0 {
        Some(make_track_view(&session.queue[0], 70))
    } else {
        None
    };
    let limit: usize = if count == 0 {
        0
    } else if count - 1 > 4 {
        4
    } else {
        count - 1
    };
    let mut upcoming: Vec<TrackView> = Vec::new();
    let mut j: usize = 0;
    while j < limit
        invariant
            j <= limit,
            limit == spec_upcoming_limit(session.queue@.len() as int),
            upcoming@.len() == j,
            forall|k: int|
                0 <= k < j ==> spec_is_view_of(
                    #[trigger] upcoming@[k],
                    session.queue@[k + 1],
                    40,
                ),
        decreases limit - j,
    {
        upcoming.push(make_track_view(&session.queue[j + 1], 40));
        j = j + 1;
    }
    QueueSummary { count, total_secs, has_live, current, upcoming }
}

/// A track's title as a display link: cleaned and cut under the bound,
/// then wrapped with its URL when it has one.
pub open spec fn spec_linked_title(t: Track, bound: int) -> Seq<char> {
    match t.url {
        Some(u) => spec_link_markup(spec_display_title(t.title@, bound), u@),
        None => spec_display_title(t.title@, bound),
    }
}

/// The display link for one track under a title bound.
fn linked_title(t: &Track, bound: usize) -> (r: String)
    requires
        bound >= 3,
    ensures
        r@ == spec_linked_title(*t, bound as int),
{
    let cut = truncate_title(t.title.as_str(), bound);
    let stripped = remove_md_characters(cut.as_str());
    format_with_url(stripped, clone_opt_string(&t.url))
}

/// The three columns of the queue listing - position, title, duration -
/// over the first `k` upcoming entries, one line each, and whether any of
/// those entries is live.
pub open spec fn spec_columns(q: Seq<Track>, k: int) -> (Seq<char>, Seq<char>, Seq<char>, bool)
    decreases k,
{
    if k <= 0 {
        (Seq::<char>::empty(), Seq::<char>::empty(), Seq::<char>::empty(), false)
    } else {
        let p = spec_columns(q, k - 1);
        (
            p.0 + seq!['#'] + spec_dec(k as nat) + " \n"@,
            p.1 + spec_linked_title(q[k], 40) + " \n"@,
            p.2 + spec_duration_cell(q[k]) + " \n"@,
            p.3 || spec_is_live(q[k].duration_secs),
        )
    }
}

/// Builds the queue listing: position, title and duration columns over
/// the upcoming entries (at most four, under the 40-character title
/// bound), and whether any listed entry is live.
pub fn format_queue_string(queue: &Vec<Track>) -> (r: (String, String, String, bool))
    ensures
        r.0@ == spec_columns(queue@, spec_upcoming_limit(queue@.len() as int)).0,
        r.1@ == spec_columns(queue@, spec_upcoming_limit(queue@.len() as int)).1,
        r.2@ == spec_columns(queue@, spec_upcoming_limit(queue@.len() as int)).2,
        r.3 == spec_columns(queue@, spec_upcoming_limit(queue@.len() as int)).3,
{
    let n = queue.len();
    let limit: usize = if n == 0 {
        0
    } else if n - 1 > 4 {
        4
    } else {
        n - 1
    };
    let mut positions = String::new();
    let mut titles = String::new();
    let mut durations = String::new();
    let mut live = false;
    let mut i: usize = 1;
    while i <= limit
        invariant
            1 <= i <= limit + 1,
            limit == spec_upcoming_limit(queue@.len() as int),
            positions@ == spec_columns(queue@, i - 1).0,
            titles@ == spec_columns(queue@, i - 1).1,
            durations@ == spec_columns(queue@, i - 1).2,
            live == spec_columns(queue@, i - 1).3,
        decreases limit + 1 - i,
    {
        let num = dec_string(i as u64);
        positions.append("#");
        positions.append(num.as_str());
        positions.append(" \n");
        let link = linked_title(&queue[i], 40);
        titles.append(link.as_str());
        titles.append(" \n");
        let (cell, cell_live) = format_duration_live(
            queue[i].duration_secs,
            queue[i].title.as_str(),
        );
        durations.append(cell.as_str());
        durations.append(" \n");
        live = live || cell_live;
        proof {
            reveal_strlit("#");
            assert(positions@ =~= spec_columns(queue@, i as int).0);
            assert(titles@ =~= spec_columns(queue@, i as int).1);
            assert(durations@ =~= spec_columns(queue@, i as int).2);
        }
        i = i + 1;
    }
    (positions, titles, durations, live)
}

/// The "currently playing" line: the linked title over the elapsed
/// position and the track's duration display.
pub open spec fn spec_current_line(t: Track, position_secs: u64) -> Seq<char> {
    spec_linked_title(t, 70) + " \n**[ "@ + spec_format_duration(position_secs) + " / "@
        + spec_duration_cell(t) + " ]**"@
}

/// Builds the "currently playing" line for the queue view.
pub fn current_song_info(t: &Track, position_secs: u64) -> (r: String)
    ensures
        r@ == spec_current_line(*t, position_secs),
{
    let link = linked_title(t, 70);
    let pos = format_duration(position_secs);
    let (cell, _live) = format_duration_live(t.duration_secs, t.title.as_str());
    let out = link.concat(" \n**[ ").concat(pos.as_str()).concat(" / ").concat(
        cell.as_str(),
    ).concat(" ]**");
    proof {
        assert(out@ =~= spec_current_line(*t, position_secs));
    }
    out
}

/// The remaining time shown in the queue footer: `LIVE` once any counted
/// entry is live, else the capped total minus the elapsed position,
/// stopping at zero.
pub open spec fn spec_time_left(total_capped: u64, position_secs: u64, live: bool) -> Seq<char> {
    if live {
        spec_live_text()
    } else {
        spec_format_duration(
            if position_secs <= total_capped {
                (total_capped - position_secs) as u64
            } else {
                0u64
            },
        )
    }
}

/// The footer's remaining-time text.
pub fn time_left_display(total_capped: u64, position_secs: u64, live: bool) -> (r: String)
    ensures
        r@ == spec_time_left(total_capped, position_secs, live),
{
    if live {
        "LIVE".to_owned()
    } else {
        format_duration(
            if position_secs <= total_capped {
                total_capped - position_secs
            } else {
                0
            },
        )
    }
}

/// A response footer: the queue length and a remaining-time text.
pub fn queue_footer(count: usize, time_text: &str) -> (r: String)
    ensures
        r@ == spec_dec(count as nat) + " songs in queue - "@ + time_text@,
{
    let out = dec_string(count as u64).concat(" songs in queue - ").concat(time_text);
    proof {
        assert(out@ =~= spec_dec(count as nat) + " songs in queue - "@ + time_text@);
    }
    out
}

/// The data a queue-command response embed is built from.
pub struct QueueEmbed {
    pub current_line: String,
    pub positions: String,
    pub titles: String,
    pub durations: String,
    pub footer: String,
    pub multi: bool,
}

/// The queue command's core: an empty queue is refused; otherwise the
/// view's lines are computed from the queue and the current track's
/// elapsed position (queried best-effort outside; zero on failure).  The
/// footer counts the whole queue and shows `LIVE` once the current track
/// or a listed upcoming entry is live.
pub fn queue_response(session: &VoiceSession, position_secs: u64) -> (r: Result<
    QueueEmbed,
    CommandError,
>)
    ensures
        match r {
            Err(e) => session.queue@.len() == 0 && e == CommandError::NothingToPlay,
            Ok(em) => {
                &&& session.queue@.len() > 0
                &&& em.current_line@ == spec_current_line(session.queue@[0], position_secs)
                &&& em.positions@ == spec_columns(
                    session.queue@,
                    spec_upcoming_limit(session.queue@.len() as int),
                ).0
                &&& em.titles@ == spec_columns(
                    session.queue@,
                    spec_upcoming_limit(session.queue@.len() as int),
                ).1
                &&& em.durations@ == spec_columns(
                    session.queue@,
                    spec_upcoming_limit(session.queue@.len() as int),
                ).2
                &&& em.multi == (session.queue@.len() >= 2)
                &&& em.footer@ == spec_dec(session.queue@.len()) + " songs in queue - "@
                    + spec_time_left(
                    spec_total_capped(session.queue@) as u64,
                    position_secs,
                    spec_columns(
                        session.queue@,
                        spec_upcoming_limit(session.queue@.len() as int),
                    ).3 || spec_is_live(session.queue@[0].duration_secs),
                )
            },
        },
{
    if session.queue.len() == 0 {
        return Err(CommandError::NothingToPlay);
    }
    let (count, total, _any_live) = get_queue_length_and_duration(&session.queue);
    let current_line = current_song_info(&session.queue[0], position_secs);
    let (positions, titles, durations, listed_live) = format_queue_string(&session.queue);
    let current_live = is_live_hint(session.queue[0].duration_secs);
    let live = listed_live || current_live;
    let time_left = time_left_display(total, position_secs, live);
    let footer = queue_footer(count, time_left.as_str());
    let multi = count >= 2;
    Ok(QueueEmbed { current_line, positions, titles, durations, footer, multi })
}

/// The data a track-centred response embed is built from: the play
/// response and the track-start notification both use it.
pub struct TrackEmbed {
    pub heading: String,
    pub track_field: String,
    pub duration_field: String,
    pub footer: String,
    pub queue_count: usize,
    pub url: Option<String>,
    pub thumbnail: Option<String>,
}

/// Builds a track-centred embed: cleaned title, duration display, and a
/// footer over the given queue count and capped total duration.
pub fn track_embed(heading: String, track: &Track, queue_count: usize, total_secs: u64) -> (r:
    TrackEmbed)
    ensures
        r.heading@ == heading@,
        r.track_field@ == spec_strip_md(track.title@),
        r.duration_field@ == spec_duration_cell(*track),
        r.footer@ == spec_dec(queue_count as nat) + " songs in queue - "@ + spec_format_duration(
            total_secs,
        ),
        r.queue_count == queue_count,
        match (r.url, track.url) {
            (Some(a), Some(b)) => a@ == b@,
            (None, None) => true,
            _ => false,
        },
        match (r.thumbnail, track.thumbnail) {
            (Some(a), Some(b)) => a@ == b@,
            (None, None) => true,
            _ => false,
        },
{
    let track_field = remove_md_characters(track.title.as_str());
    let (duration_field, _live) = format_duration_live(track.duration_secs, track.title.as_str());
    let total_text = format_duration(total_secs);
    let footer = queue_footer(queue_count, total_text.as_str());
    TrackEmbed {
        heading,
        track_field,
        duration_field,
        footer,
        queue_count,
        url: clone_opt_string(&track.url),
        thumbnail: clone_opt_string(&track.thumbnail),
    }
}

/// The track-start notification: when a track transitions to playing,
/// the notifier recomputes the queue view and emits this payload for the
/// originating channel.  (If the session vanished in the meantime the
/// caller simply drops the event - that race is expected.)
pub fn now_playing_embed(track: &Track, queue: &Vec<Track>) -> (r: TrackEmbed)
    ensures
        r.heading@ == "Playing"@,
        r.track_field@ == spec_strip_md(track.title@),
        r.duration_field@ == spec_duration_cell(*track),
        r.footer@ == spec_dec(queue@.len()) + " songs in queue - "@ + spec_format_duration(
            spec_total_capped(queue@) as u64,
        ),
        r.queue_count == queue@.len(),
        match (r.url, track.url) {
            (Some(a), Some(b)) => a@ == b@,
            (None, None) => true,
            _ => false,
        },
        match (r.thumbnail, track.thumbnail) {
            (Some(a), Some(b)) => a@ == b@,
            (None, None) => true,
            _ => false,
        },
{
    let (count, total, _live) = get_queue_length_and_duration(queue);
    track_embed("Playing".to_owned(), track, count, total)
}

} // verus!
