//! Session, queue and command behaviour.

use voicequeue::commands::{Leave, Play, Queue, Skip};
use voicequeue::errors::CommandError;
use voicequeue::session::{resolve_voip, SessionRegistry, VoiceSession, VoipContext};
use voicequeue::summary::{
    format_queue_string, now_playing_embed, queue_response, summarize, track_embed,
};
use voicequeue::track::Track;

fn track(title: &str, duration_secs: Option<u64>) -> Track {
    Track {
        title: title.to_string(),
        url: None,
        thumbnail: None,
        duration_secs,
    }
}

fn ctx(guild_id: u64, channel_id: u64) -> VoipContext {
    VoipContext { guild_id, channel_id }
}

#[test]
fn resolving_without_a_voice_channel_fails() {
    assert_eq!(resolve_voip(7, None), Err(CommandError::NotInVoice));
    assert_eq!(resolve_voip(7, Some(3)), Ok(ctx(7, 3)));
}

#[test]
fn missing_search_argument_is_refused() {
    assert_eq!(
        Play::validate_search_term(None),
        Err(CommandError::MissingArgument)
    );
    assert_eq!(
        Play::validate_search_term(Some("tune".to_string())),
        Ok("tune".to_string())
    );
}

#[test]
fn enqueue_into_empty_queue_plays_immediately() {
    let mut session = VoiceSession::new(42);
    let started = Play::enqueue(&mut session, track("first", Some(100)));
    assert!(started);
    assert_eq!(session.queue.len(), 1);
    assert_eq!(session.current().unwrap().title, "first");
    assert_eq!(Play::embed_title(started), "Playing");

    let started_again = Play::enqueue(&mut session, track("second", Some(50)));
    assert!(!started_again);
    assert_eq!(session.queue.len(), 2);
    assert_eq!(session.current().unwrap().title, "first");
    assert_eq!(Play::embed_title(started_again), "Added to queue");
}

#[test]
fn two_enqueues_keep_both_tracks_in_acceptance_order() {
    let mut session = VoiceSession::new(1);
    Play::enqueue(&mut session, track("a", Some(1)));
    Play::enqueue(&mut session, track("b", Some(2)));
    assert_eq!(session.queue.len(), 2);
    assert_eq!(session.queue[0].title, "a");
    assert_eq!(session.queue[1].title, "b");
}

#[test]
fn skip_on_empty_queue_changes_nothing() {
    let session = VoiceSession::new(9);
    assert_eq!(session.queue.len(), 0);
    match Skip::decide(&session) {
        Err(CommandError::NothingToPlay) => {}
        other => panic!("expected NothingToPlay, got {:?}", other.map(|t| t.title)),
    }
    assert_eq!(session.queue.len(), 0);
}

#[test]
fn skip_captures_the_current_track_and_removes_it_on_confirmation() {
    let mut session = VoiceSession::new(9);
    Play::enqueue(&mut session, track("gone", Some(30)));
    Play::enqueue(&mut session, track("next", Some(40)));
    let skipped = Skip::decide(&session).unwrap();
    assert_eq!(skipped.title, "gone");
    assert_eq!(Skip::conclude(&mut session, true), Ok(()));
    assert_eq!(session.queue.len(), 1);
    assert_eq!(session.queue[0].title, "next");
}

#[test]
fn failed_skip_leaves_the_queue_unchanged() {
    let mut session = VoiceSession::new(9);
    Play::enqueue(&mut session, track("stays", Some(30)));
    assert_eq!(
        Skip::conclude(&mut session, false),
        Err(CommandError::SkipFailed)
    );
    assert_eq!(session.queue.len(), 1);
    assert_eq!(session.queue[0].title, "stays");
}

#[test]
fn leave_from_another_channel_is_refused_and_keeps_the_session() {
    let mut registry = SessionRegistry::new();
    registry.apply_join(ctx(7, 5));
    let r = Leave::apply(&mut registry, ctx(7, 6), true);
    assert_eq!(r, Err(CommandError::VoiceMismatch));
    let s = registry.session(7).expect("session must remain");
    assert_eq!(s.channel_id, 5);
}

#[test]
fn leave_without_a_session_reports_not_in_voice() {
    let mut registry = SessionRegistry::new();
    assert_eq!(
        Leave::apply(&mut registry, ctx(7, 5), true),
        Err(CommandError::NotInVoice)
    );
}

#[test]
fn leave_removes_the_session_even_when_teardown_fails() {
    let mut registry = SessionRegistry::new();
    registry.apply_join(ctx(7, 5));
    let r = Leave::apply(&mut registry, ctx(7, 5), false);
    assert_eq!(r, Err(CommandError::LeaveFailed));
    assert!(registry.session(7).is_none());
}

#[test]
fn join_replaces_the_session_and_drops_the_old_queue() {
    let mut registry = SessionRegistry::new();
    registry.apply_join(ctx(7, 5));
    let mut s = registry.take_session(7).unwrap();
    Play::enqueue(&mut s, track("old", Some(10)));
    registry.put_session(7, s);
    assert!(!registry.needs_join(ctx(7, 5)));
    assert!(registry.needs_join(ctx(7, 6)));
    registry.apply_join(ctx(7, 6));
    let replaced = registry.session(7).unwrap();
    assert_eq!(replaced.channel_id, 6);
    assert_eq!(replaced.queue.len(), 0);
}

#[test]
fn membership_is_checked_against_the_active_channel() {
    let mut registry = SessionRegistry::new();
    assert!(!registry.matches_active_session(ctx(7, 5)));
    registry.apply_join(ctx(7, 5));
    assert!(registry.matches_active_session(ctx(7, 5)));
    assert!(!registry.matches_active_session(ctx(7, 6)));
    assert!(!registry.matches_active_session(ctx(8, 5)));
}

#[test]
fn summary_count_always_matches_queue_length() {
    let mut session = VoiceSession::new(1);
    assert_eq!(summarize(&session).count, 0);
    for i in 0..6u64 {
        Play::enqueue(&mut session, track("t", Some(i)));
        assert_eq!(summarize(&session).count, session.queue.len());
    }
}

#[test]
fn live_tracks_contribute_nothing_but_raise_the_live_flag() {
    let mut session = VoiceSession::new(1);
    Play::enqueue(&mut session, track("A", Some(120)));
    Play::enqueue(&mut session, track("live", None));
    Play::enqueue(&mut session, track("C", Some(60)));
    let summary = summarize(&session);
    assert_eq!(summary.count, 3);
    assert_eq!(summary.total_secs, 180);
    assert!(summary.has_live);
}

#[test]
fn all_fixed_durations_sum_without_a_live_flag() {
    let mut session = VoiceSession::new(1);
    Play::enqueue(&mut session, track("A", Some(120)));
    Play::enqueue(&mut session, track("C", Some(60)));
    let summary = summarize(&session);
    assert_eq!(summary.total_secs, 180);
    assert!(!summary.has_live);
}

#[test]
fn view_titles_truncate_per_component_bound() {
    let long: String = "x".repeat(85);
    let mut session = VoiceSession::new(1);
    Play::enqueue(&mut session, track(long.as_str(), Some(10)));
    Play::enqueue(&mut session, track(long.as_str(), Some(10)));
    let summary = summarize(&session);
    let current = summary.current.unwrap();
    assert_eq!(current.title, format!("{}...", "x".repeat(67)));
    assert_eq!(current.title.chars().count(), 70);
    assert_eq!(summary.upcoming.len(), 1);
    assert_eq!(summary.upcoming[0].title, format!("{}...", "x".repeat(37)));
    assert_eq!(summary.upcoming[0].title.chars().count(), 40);
}

#[test]
fn upcoming_entries_are_bounded_to_four() {
    let mut session = VoiceSession::new(1);
    for i in 0..7u64 {
        Play::enqueue(&mut session, track(format!("t{}", i).as_str(), Some(i)));
    }
    let summary = summarize(&session);
    assert_eq!(summary.count, 7);
    assert_eq!(summary.upcoming.len(), 4);
    assert_eq!(summary.upcoming[0].title, "t1");
    assert_eq!(summary.upcoming[3].title, "t4");
}

#[test]
fn queue_response_on_empty_queue_is_refused() {
    let session = VoiceSession::new(1);
    match queue_response(&session, 0) {
        Err(e) => assert_eq!(e, CommandError::NothingToPlay),
        Ok(_) => panic!("empty queue must be refused"),
    }
    assert_eq!(CommandError::NothingToPlay.message(), "Queue is empty");
}

#[test]
fn queue_response_builds_the_listing() {
    let mut session = VoiceSession::new(1);
    let mut with_url = track("now", Some(125));
    with_url.url = Some("https://example.invalid/a".to_string());
    Play::enqueue(&mut session, with_url);
    Play::enqueue(&mut session, track("later", Some(60)));
    Play::enqueue(&mut session, track("stream", None));
    let embed = queue_response(&session, 5).unwrap();
    assert!(embed.multi);
    assert_eq!(
        embed.current_line,
        "[now](https://example.invalid/a) \n**[ 0:05 / 2:05 ]**"
    );
    assert_eq!(embed.positions, "#1 \n#2 \n");
    assert_eq!(embed.titles, "later \nstream \n");
    assert_eq!(embed.durations, "1:00 \nLIVE \n");
    assert_eq!(embed.footer, "3 songs in queue - LIVE");

    let (positions, titles, durations, live) = format_queue_string(&session.queue);
    assert_eq!(positions, "#1 \n#2 \n");
    assert_eq!(titles, "later \nstream \n");
    assert_eq!(durations, "1:00 \nLIVE \n");
    assert!(live);
}

#[test]
fn queue_footer_counts_down_the_remaining_time() {
    let mut session = VoiceSession::new(1);
    Play::enqueue(&mut session, track("a", Some(120)));
    Play::enqueue(&mut session, track("b", Some(60)));
    let embed = queue_response(&session, 30).unwrap();
    assert_eq!(embed.footer, "2 songs in queue - 2:30");
}

#[test]
fn track_embeds_carry_cleaned_fields() {
    let mut t = track("my *song*", Some(125));
    t.thumbnail = Some("https://example.invalid/t.png".to_string());
    let embed = track_embed("Playing".to_string(), &t, 3, 300);
    assert_eq!(embed.heading, "Playing");
    assert_eq!(embed.track_field, "my song");
    assert_eq!(embed.duration_field, "2:05");
    assert_eq!(embed.footer, "3 songs in queue - 5:00");
    assert_eq!(embed.queue_count, 3);
    assert_eq!(embed.thumbnail.as_deref(), Some("https://example.invalid/t.png"));
}

#[test]
fn track_start_notification_summarizes_the_queue() {
    let mut session = VoiceSession::new(1);
    Play::enqueue(&mut session, track("on air", Some(90)));
    Play::enqueue(&mut session, track("next", Some(30)));
    let embed = now_playing_embed(&session.queue[0], &session.queue);
    assert_eq!(embed.heading, "Playing");
    assert_eq!(embed.track_field, "on air");
    assert_eq!(embed.duration_field, "1:30");
    assert_eq!(embed.footer, "2 songs in queue - 2:00");
}

#[test]
fn error_messages_match_the_user_texts() {
    assert_eq!(CommandError::NotInVoice.message(), "Not in a voice channel");
    assert_eq!(
        CommandError::VoiceMismatch.message(),
        "You're not in the voice channel"
    );
    assert_eq!(CommandError::JoinFailed.message(), "Not in a voice channel");
    assert_eq!(CommandError::LeaveFailed.message(), "Error leaving channel");
    assert_eq!(CommandError::SkipFailed.message(), "Nothing to skip");
    assert_eq!(CommandError::NothingToPlay.message(), "Queue is empty");
    assert_eq!(
        CommandError::NoMatch.message(),
        "No match for the search term"
    );
    assert_eq!(
        CommandError::MissingArgument.message(),
        "No search term or URL in request"
    );
}

#[test]
fn command_descriptors_keep_their_names() {
    assert_eq!(Play::info().name, "play");
    assert_eq!(Play::info().options[0].name, "search");
    assert!(Play::info().options[0].required);
    assert_eq!(Queue::info().name, "queue");
    assert_eq!(Skip::info().name, "skip");
    assert_eq!(Leave::info().name, "leave");
}
