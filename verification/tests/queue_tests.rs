use irc_sitz_rs::event::{Effect, Event};
use irc_sitz_rs::message::{MessageAction, RichContent};
use irc_sitz_rs::playback::{Playback, PlaybackAction, PlaybackState, Song, MAX_SONG_DURATION_SECS};
use irc_sitz_rs::sources::symphonia::SymphoniaAction;

fn song(id: &str, by: &str, duration: u64) -> Song {
    Song {
        id: id.to_string(),
        url: format!("https://youtu.be/{id}"),
        title: format!("Song {id}"),
        channel: "Channel".to_string(),
        duration,
        queued_by: by.to_string(),
    }
}

fn empty_playback() -> Playback {
    Playback::create(PlaybackState::default()).0
}

/// The texts of the messages among the effects.
fn texts(effs: &[Effect]) -> Vec<String> {
    effs.iter()
        .filter_map(|e| match e {
            Effect::Send(Event::Message(MessageAction::Send { text, .. })) => Some(text.clone()),
            _ => None,
        })
        .collect()
}

/// The player requests among the effects.
fn player(effs: &[Effect]) -> Vec<String> {
    effs.iter()
        .filter_map(|e| match e {
            Effect::Send(Event::Symphonia(SymphoniaAction::PlayYtUrl { url })) => Some(format!("play {url}")),
            Effect::Send(Event::Symphonia(SymphoniaAction::Stop)) => Some("stop".to_string()),
            Effect::Send(Event::Symphonia(SymphoniaAction::Pause)) => Some("pause".to_string()),
            Effect::Send(Event::Symphonia(SymphoniaAction::Resume)) => Some("resume".to_string()),
            _ => None,
        })
        .collect()
}

fn ids(songs: &[Song]) -> Vec<String> {
    songs.iter().map(|s| s.id.clone()).collect()
}

/// A queue of three songs with the first one playing.
fn three_songs() -> Playback {
    let mut p = empty_playback();
    p.handle_incoming_event(PlaybackAction::Enqueue { song: song("a", "alice", 180) });
    p.handle_incoming_event(PlaybackAction::Enqueue { song: song("b", "bob", 240) });
    p.handle_incoming_event(PlaybackAction::Enqueue { song: song("c", "carol", 60) });
    p
}

#[test]
fn enqueue_into_empty_queue_starts_playing() {
    let mut p = empty_playback();
    let effs = p.handle_incoming_event(PlaybackAction::Enqueue { song: song("a", "alice", 180) });
    assert_eq!(
        texts(&effs),
        vec![
            "Added Song a (https://youtu.be/a) to the queue (queued by alice). Time until playback: 0 min".to_string(),
            "Now playing (0:00/3:00): Song a (https://youtu.be/a, queued by alice), next up: (nothing). Queue length: 0 songs (0 min)".to_string(),
        ]
    );
    assert_eq!(player(&effs), vec!["play https://youtu.be/a".to_string()]);
    assert!(p.state.is_playing);
    assert!(p.state.song_loaded);
    assert!(matches!(effs.last(), Some(Effect::Persist)));
}

#[test]
fn enqueue_reports_time_until_playback() {
    let mut p = three_songs();
    let effs = p.handle_incoming_event(PlaybackAction::Enqueue { song: song("d", "dave", 30) });
    // Songs b and c wait before d: 240 + 60 seconds.
    assert_eq!(
        texts(&effs),
        vec!["Added Song d (https://youtu.be/d) to the queue (queued by dave). Time until playback: 5 min".to_string()]
    );
    assert!(player(&effs).is_empty());
    match &effs[0] {
        Effect::Send(Event::Message(MessageAction::Send {
            rich: Some(RichContent::SongEnqueued { song, time_until_playback_mins }),
            ..
        })) => {
            assert_eq!(song.id, "d");
            assert_eq!(*time_until_playback_mins, 5);
        }
        other => panic!("unexpected effect {other:?}"),
    }
    assert_eq!(ids(&p.state.queued_songs), vec!["a", "b", "c", "d"]);
}

#[test]
fn enqueue_duplicate_is_rejected() {
    let mut p = three_songs();
    let effs = p.handle_incoming_event(PlaybackAction::Enqueue { song: song("b", "zed", 10) });
    assert_eq!(texts(&effs), vec!["Song already in queue!".to_string()]);
    assert_eq!(effs.len(), 1);
    assert_eq!(ids(&p.state.queued_songs), vec!["a", "b", "c"]);
}

#[test]
fn enqueue_while_paused_does_not_start() {
    let mut state = PlaybackState::default();
    state.should_play = false;
    let (mut p, effs) = Playback::create(state);
    assert!(effs.is_empty());
    let effs = p.handle_incoming_event(PlaybackAction::Enqueue { song: song("a", "alice", 180) });
    assert!(player(&effs).is_empty());
    assert!(!p.state.is_playing);
}

#[test]
fn list_queue_shows_status() {
    let mut p = three_songs();
    p.handle_incoming_event(PlaybackAction::PlaybackProgress { position: 75 });
    let effs = p.handle_incoming_event(PlaybackAction::ListQueue { offset: None });
    assert_eq!(
        texts(&effs),
        vec!["Now playing (1:15/3:00): Song a (https://youtu.be/a, queued by alice), next up: Song b (https://youtu.be/b, queued by bob). Queue length: 2 songs (5 min)".to_string()]
    );
    let effs = p.handle_incoming_event(PlaybackAction::ListQueue { offset: Some(2) });
    assert_eq!(texts(&effs), vec!["Song at position 2: Song c (https://youtu.be/c, queued by carol)".to_string()]);
    let effs = p.handle_incoming_event(PlaybackAction::ListQueue { offset: Some(7) });
    assert_eq!(texts(&effs), vec!["Song at position 7: (nothing)".to_string()]);
}

#[test]
fn list_empty_queue() {
    let mut p = empty_playback();
    let effs = p.handle_incoming_event(PlaybackAction::ListQueue { offset: None });
    assert_eq!(texts(&effs), vec!["Queue is empty!".to_string()]);
    match &effs[0] {
        Effect::Send(Event::Message(MessageAction::Send { rich: Some(RichContent::QueueStatus { now_playing, queue_length, .. }), .. })) => {
            assert!(now_playing.is_none());
            assert_eq!(*queue_length, 0);
        }
        other => panic!("unexpected effect {other:?}"),
    }
}

#[test]
fn next_plays_the_following_song() {
    let mut p = three_songs();
    let effs = p.handle_incoming_event(PlaybackAction::Next);
    assert_eq!(player(&effs), vec!["play https://youtu.be/b".to_string()]);
    assert_eq!(ids(&p.state.queued_songs), vec!["b", "c"]);
    assert_eq!(ids(&p.state.played_songs), vec!["a"]);
}

#[test]
fn next_plays_best_voted_song() {
    let mut p = three_songs();
    p.handle_incoming_event(PlaybackAction::Upvote { song_id: "c".to_string(), user: "dave".to_string() });
    let effs = p.handle_incoming_event(PlaybackAction::Next);
    assert_eq!(player(&effs), vec!["play https://youtu.be/c".to_string()]);
    assert_eq!(ids(&p.state.queued_songs), vec!["c", "b"]);
    // Votes of songs still queued stay.
    assert_eq!(p.get_votes("c").upvotes, vec!["dave".to_string()]);
}

#[test]
fn downvoted_song_plays_later() {
    let mut p = three_songs();
    p.handle_incoming_event(PlaybackAction::Downvote { song_id: "b".to_string(), user: "dave".to_string() });
    p.handle_incoming_event(PlaybackAction::Next);
    assert_eq!(ids(&p.state.queued_songs), vec!["c", "b"]);
}

#[test]
fn end_of_last_song_stops() {
    let mut p = empty_playback();
    p.handle_incoming_event(PlaybackAction::Enqueue { song: song("a", "alice", 180) });
    let effs = p.handle_incoming_event(PlaybackAction::EndOfSong);
    assert_eq!(player(&effs), vec!["stop".to_string()]);
    assert_eq!(texts(&effs), vec!["Playback queue ended.".to_string()]);
    assert!(!p.state.is_playing);
    assert!(!p.state.song_loaded);
    assert!(p.state.queued_songs.is_empty());
    assert_eq!(ids(&p.state.played_songs), vec!["a"]);
}

#[test]
fn prev_goes_back() {
    let mut p = three_songs();
    p.handle_incoming_event(PlaybackAction::Next);
    let effs = p.handle_incoming_event(PlaybackAction::Prev);
    assert_eq!(player(&effs), vec!["play https://youtu.be/a".to_string()]);
    assert_eq!(ids(&p.state.queued_songs), vec!["a", "b", "c"]);
    assert!(p.state.played_songs.is_empty());
}

#[test]
fn prev_without_history_stops() {
    let mut p = three_songs();
    let effs = p.handle_incoming_event(PlaybackAction::Prev);
    assert_eq!(player(&effs), vec!["stop".to_string()]);
    assert_eq!(ids(&p.state.queued_songs), vec!["a", "b", "c"]);
}

#[test]
fn pause_and_play() {
    let mut p = three_songs();
    let effs = p.handle_incoming_event(PlaybackAction::Pause);
    assert_eq!(player(&effs), vec!["pause".to_string()]);
    assert!(!p.state.is_playing);
    assert!(!p.state.should_play);
    let effs = p.handle_incoming_event(PlaybackAction::Play);
    assert_eq!(player(&effs), vec!["resume".to_string()]);
    assert!(p.state.is_playing);
    assert!(p.state.should_play);
}

#[test]
fn play_without_loaded_song_starts_first() {
    let mut state = PlaybackState::default();
    state.should_play = false;
    state.queued_songs = vec![song("a", "alice", 180), song("b", "bob", 60)];
    let (mut p, _) = Playback::create(state);
    let effs = p.handle_incoming_event(PlaybackAction::Play);
    assert_eq!(player(&effs), vec!["play https://youtu.be/a".to_string()]);
    assert!(p.state.should_play);
}

#[test]
fn create_starts_saved_queue() {
    let mut state = PlaybackState::default();
    state.queued_songs = vec![song("a", "alice", 180)];
    state.playback_progress = 99;
    let (p, effs) = Playback::create(state);
    assert_eq!(player(&effs), vec!["play https://youtu.be/a".to_string()]);
    assert_eq!(p.state.playback_progress, 0);
    assert!(p.state.is_playing);
}

#[test]
fn remove_by_position() {
    let mut p = three_songs();
    let effs = p.handle_incoming_event(PlaybackAction::RmSongByPos { pos: 1 });
    assert_eq!(texts(&effs), vec!["Removed song Song b from the queue".to_string()]);
    assert_eq!(ids(&p.state.queued_songs), vec!["a", "c"]);
    let effs = p.handle_incoming_event(PlaybackAction::RmSongByPos { pos: 5 });
    assert_eq!(texts(&effs), vec!["No song at position 5 in the queue".to_string()]);
}

#[test]
fn remove_current_song_skips_it() {
    let mut p = three_songs();
    let effs = p.handle_incoming_event(PlaybackAction::RmSongByPos { pos: 0 });
    assert_eq!(player(&effs), vec!["play https://youtu.be/b".to_string()]);
    assert!(texts(&effs).contains(&"Removed song Song a from the queue".to_string()));
    // A removed song is not counted as played.
    assert!(p.state.played_songs.is_empty());
}

#[test]
fn remove_latest_by_nick() {
    let mut p = three_songs();
    p.handle_incoming_event(PlaybackAction::Enqueue { song: song("d", "bob", 30) });
    let effs = p.handle_incoming_event(PlaybackAction::RmSongByNick { nick: "bob".to_string() });
    assert_eq!(texts(&effs), vec!["Removed song Song d from the queue".to_string()]);
    assert_eq!(ids(&p.state.queued_songs), vec!["a", "b", "c"]);
    let effs = p.handle_incoming_event(PlaybackAction::RmSongByNick { nick: "zed".to_string() });
    assert_eq!(texts(&effs), vec!["No songs queued by zed".to_string()]);
}

#[test]
fn own_song_cannot_be_upvoted() {
    let mut p = three_songs();
    let effs = p.handle_incoming_event(PlaybackAction::Upvote { song_id: "b".to_string(), user: "bob".to_string() });
    assert!(effs.is_empty());
    assert!(p.get_votes("b").upvotes.is_empty());
}

#[test]
fn downvote_replaces_upvote() {
    let mut p = three_songs();
    p.handle_incoming_event(PlaybackAction::Upvote { song_id: "c".to_string(), user: "dave".to_string() });
    p.handle_incoming_event(PlaybackAction::Upvote { song_id: "c".to_string(), user: "dave".to_string() });
    assert_eq!(p.get_votes("c").upvotes, vec!["dave".to_string()]);
    p.handle_incoming_event(PlaybackAction::Downvote { song_id: "c".to_string(), user: "dave".to_string() });
    let votes = p.get_votes("c");
    assert!(votes.upvotes.is_empty());
    assert_eq!(votes.downvotes, vec!["dave".to_string()]);
    assert_eq!(votes.score(), -1);
}

#[test]
fn votes_can_be_taken_back() {
    let mut p = three_songs();
    p.handle_incoming_event(PlaybackAction::Upvote { song_id: "c".to_string(), user: "dave".to_string() });
    p.handle_incoming_event(PlaybackAction::RemoveUpvote { song_id: "c".to_string(), user: "dave".to_string() });
    assert_eq!(p.get_votes("c").score(), 0);
    p.handle_incoming_event(PlaybackAction::Downvote { song_id: "b".to_string(), user: "erin".to_string() });
    p.handle_incoming_event(PlaybackAction::RemoveDownvote { song_id: "b".to_string(), user: "erin".to_string() });
    assert_eq!(p.get_votes("b").score(), 0);
    // Taking back a vote for a song without votes changes nothing.
    let effs = p.handle_incoming_event(PlaybackAction::RemoveUpvote { song_id: "x".to_string(), user: "erin".to_string() });
    assert!(effs.is_empty());
}

#[test]
fn sorted_upcoming_follows_votes() {
    let mut p = three_songs();
    p.handle_incoming_event(PlaybackAction::Enqueue { song: song("d", "dave", 30) });
    p.handle_incoming_event(PlaybackAction::Upvote { song_id: "d".to_string(), user: "erin".to_string() });
    p.handle_incoming_event(PlaybackAction::Downvote { song_id: "b".to_string(), user: "erin".to_string() });
    let sorted: Vec<(String, usize, usize)> =
        p.get_sorted_upcoming().into_iter().map(|(s, orig, eff)| (s.id, orig, eff)).collect();
    assert_eq!(
        sorted,
        vec![
            ("a".to_string(), 0, 0),
            ("d".to_string(), 3, 1),
            ("c".to_string(), 2, 2),
            ("b".to_string(), 1, 3),
        ]
    );
}

#[test]
fn sorted_upcoming_of_empty_queue() {
    assert!(empty_playback().get_sorted_upcoming().is_empty());
}

#[test]
fn queue_length_and_minutes() {
    let p = three_songs();
    assert_eq!(p.queue_len(), 2);
    assert_eq!(p.queue_duration_mins(), 5);
    assert_eq!(empty_playback().queue_len(), 0);
}

#[test]
fn duration_limits() {
    let p = three_songs();
    assert!(p.fits_song(MAX_SONG_DURATION_SECS));
    assert!(!p.fits_song(u64::MAX));
    let mut state = PlaybackState::default();
    state.played_songs = vec![song("x", "x", u64::MAX), song("y", "y", 1)];
    assert!(!state.check_limits());
    assert!(PlaybackState::default().check_limits());
}

#[test]
fn progress_is_recorded() {
    let mut p = three_songs();
    let effs = p.handle_incoming_event(PlaybackAction::PlaybackProgress { position: 42 });
    assert!(effs.is_empty());
    assert_eq!(p.state.playback_progress, 42);
}

#[test]
fn max_song_duration_is_ten_minutes() {
    assert_eq!(MAX_SONG_DURATION_SECS, 600);
}
