use irc_sitz_rs::playback::{PlaybackAction, Song};

fn make_test_song(id: &str, queued_by: &str) -> Song {
    Song {
        id: id.to_string(),
        url: format!("https://youtu.be/{}", id),
        title: format!("Test Song {}", id),
        channel: "Test Channel".to_string(),
        duration: 180,
        queued_by: queued_by.to_string(),
    }
}

#[test]
fn playback_tests_test_song_equality_by_id() {
    let song1 = make_test_song("abc123", "user1");
    let song2 = make_test_song("abc123", "user2");
    let song3 = make_test_song("xyz789", "user1");

    assert_eq!(song1, song2);
    assert_ne!(song1, song3);
}

#[test]
fn test_song_clone() {
    let song = make_test_song("test123", "testuser");
    let cloned = song.clone();

    assert_eq!(song.id, cloned.id);
    assert_eq!(song.url, cloned.url);
    assert_eq!(song.title, cloned.title);
    assert_eq!(song.channel, cloned.channel);
    assert_eq!(song.duration, cloned.duration);
    assert_eq!(song.queued_by, cloned.queued_by);
}

#[test]
fn test_playback_action_debug() {
    let action = PlaybackAction::Enqueue {
        song: make_test_song("test", "user"),
    };
    let debug_str = format!("{:?}", action);
    assert!(debug_str.contains("Enqueue"));
}

#[test]
fn playback_tests_test_playback_action_variants() {
    let _enqueue = PlaybackAction::Enqueue {
        song: make_test_song("test", "user"),
    };
    let _end = PlaybackAction::EndOfSong;
    let _list = PlaybackAction::ListQueue { offset: Some(5) };
    let _list_none = PlaybackAction::ListQueue { offset: None };
    let _rm_pos = PlaybackAction::RmSongByPos { pos: 3 };
    let _rm_nick = PlaybackAction::RmSongByNick {
        nick: "testuser".to_string(),
    };
    let _play = PlaybackAction::Play;
    let _pause = PlaybackAction::Pause;
    let _prev = PlaybackAction::Prev;
    let _next = PlaybackAction::Next;
    let _progress = PlaybackAction::PlaybackProgress { position: 120 };
}
