use irc_sitz_rs::config::{Config, SongbookConfig};
use irc_sitz_rs::event::{Effect, Event};
use irc_sitz_rs::message::{CountdownValue, MessageAction, RichContent};
use irc_sitz_rs::playback::PlaybackAction;
use irc_sitz_rs::songbook::SongbookSong;
use irc_sitz_rs::songleader::{Mode, Songleader, SongleaderAction, SongleaderError, SongleaderState};
use irc_sitz_rs::sources::espeak::{Priority, TextToSpeechAction};

fn config() -> Config {
    Config {
        irc: None,
        songbook: SongbookConfig {
            songbook_url: "https://example-songbook.com".to_string(),
            songbook_re: r"(https?://)?example-songbook\.com/(.+)".to_string(),
        },
        discord: None,
    }
}

fn request(id: &str, title: &str, by: &str) -> SongbookSong {
    SongbookSong {
        id: id.to_string(),
        url: Some(format!("https://example-songbook.com/{id}")),
        title: Some(title.to_string()),
        book: None,
        queued_by: Some(by.to_string()),
    }
}

fn texts(effs: &[Effect]) -> Vec<String> {
    effs.iter()
        .filter_map(|e| match e {
            Effect::Send(Event::Message(MessageAction::Send { text, .. })) => Some(text.clone()),
            _ => None,
        })
        .collect()
}

fn speech(effs: &[Effect]) -> Vec<String> {
    effs.iter()
        .filter_map(|e| match e {
            Effect::Send(Event::TextToSpeech(TextToSpeechAction::Speak { text, prio: Priority::High })) => Some(text.clone()),
            _ => None,
        })
        .collect()
}

fn nicks_of(mode: &Mode) -> Vec<String> {
    match mode {
        Mode::Tempo { nicks, .. } | Mode::Bingo { nicks, .. } => nicks.clone(),
        _ => vec![],
    }
}

fn new_songleader() -> Songleader {
    Songleader::create_with_state(&config(), SongleaderState::default())
}

/// A songleader that has begun and whose opening song has been sung.
fn in_tempo_mode(now: u64) -> Songleader {
    let mut s = new_songleader();
    s.handle_incoming_event(SongleaderAction::Begin, 0);
    s.handle_incoming_event(SongleaderAction::Skal, now);
    s
}

#[test]
fn begin_sets_up_the_party() {
    let mut s = new_songleader();
    let effs = s.handle_incoming_event(SongleaderAction::Begin, 0);
    assert!(matches!(s.state.mode, Mode::Singing));
    let first: Vec<String> = s.state.first_songs.iter().map(|song| song.title_or_id()).collect();
    assert_eq!(first, vec!["Halvankaren".to_string(), "Fjärran han dröjer".to_string()]);
    assert_eq!(s.state.backup.len(), 7);
    assert!(s.state.requests.is_empty());
    let said = texts(&effs);
    assert_eq!(said.first().map(String::as_str), Some("irc-sitz-rs 2.0.0"));
    assert!(said.contains(&"*sjunger:*".to_string()));
    assert_eq!(said.last().map(String::as_str), Some("Helan går..."));
    assert_eq!(speech(&effs).first().map(String::as_str), Some("Diii duuuu diii duuuu diii duuu"));
    assert!(effs.iter().any(|e| matches!(e, Effect::Sleep { millis: 3000 })));
    // Music and low priority speech are stopped while the party starts.
    assert!(effs.iter().any(|e| matches!(e, Effect::Send(Event::Playback(PlaybackAction::Pause)))));
    assert!(matches!(effs.last(), Some(Effect::Persist)));
}

#[test]
fn begin_only_when_inactive() {
    let mut s = in_tempo_mode(0);
    let effs = s.handle_incoming_event(SongleaderAction::Begin, 5);
    assert!(effs.is_empty());
    assert!(matches!(s.state.mode, Mode::Tempo { .. }));
}

#[test]
fn tempo_votes_lead_to_bingo() {
    let mut s = in_tempo_mode(1000);
    match &s.state.mode {
        Mode::Tempo { nicks, init_t } => {
            assert!(nicks.is_empty());
            assert_eq!(*init_t, 1000);
        }
        other => panic!("unexpected mode {other:?}"),
    }
    let effs = s.handle_incoming_event(SongleaderAction::Tempo { nick: "alice".to_string() }, 2000);
    assert_eq!(effs.len(), 1);
    assert!(matches!(effs[0], Effect::Persist));
    s.handle_incoming_event(SongleaderAction::Tempo { nick: "alice".to_string() }, 2000);
    assert_eq!(nicks_of(&s.state.mode), vec!["alice".to_string()]);
    s.handle_incoming_event(SongleaderAction::Tempo { nick: "bob".to_string() }, 3000);
    let effs = s.handle_incoming_event(SongleaderAction::Tempo { nick: "carol".to_string() }, 4000);
    match &s.state.mode {
        Mode::Bingo { nicks, song } => {
            assert!(nicks.is_empty());
            assert_eq!(song.id, "tf-sangbok-150-halvankaren");
        }
        other => panic!("unexpected mode {other:?}"),
    }
    assert_eq!(
        texts(&effs),
        vec!["Next song coming up: Halvankaren (TF:s Sångbok 150 – s. 39). https://example-songbook.com/tf-sangbok-150-halvankaren\nType bingo when you have found it!".to_string()]
    );
    assert_eq!(speech(&effs), vec!["Nästa sång kommer nu... Halvankaren (TF:s Sångbok 150 – s. 39)".to_string()]);
    assert_eq!(s.state.first_songs.len(), 1);
}

#[test]
fn bingo_votes_start_the_song() {
    let mut s = in_tempo_mode(0);
    s.handle_incoming_event(SongleaderAction::ForceBingo, 0);
    s.handle_incoming_event(SongleaderAction::Bingo { nick: "alice".to_string() }, 0);
    s.handle_incoming_event(SongleaderAction::Bingo { nick: "bob".to_string() }, 0);
    assert_eq!(nicks_of(&s.state.mode).len(), 2);
    let effs = s.handle_incoming_event(SongleaderAction::Bingo { nick: "carol".to_string() }, 0);
    assert!(matches!(s.state.mode, Mode::Singing));
    assert_eq!(texts(&effs), vec!["Song starts in 3", "2", "1", "NOW!"]);
    assert_eq!(speech(&effs), vec!["PLING PLONG".to_string()]);
    let values: Vec<CountdownValue> = effs
        .iter()
        .filter_map(|e| match e {
            Effect::Send(Event::Message(MessageAction::Send { rich: Some(RichContent::Countdown { value }), .. })) => Some(value.clone()),
            _ => None,
        })
        .collect();
    assert_eq!(values, vec![CountdownValue::Three, CountdownValue::Two, CountdownValue::One, CountdownValue::Now]);
    assert_eq!(effs.iter().filter(|e| matches!(e, Effect::Sleep { millis: 1000 })).count(), 3);
}

#[test]
fn skal_only_while_singing() {
    let mut s = in_tempo_mode(0);
    let effs = s.handle_incoming_event(SongleaderAction::Skal, 10);
    assert!(effs.is_empty());
    s.handle_incoming_event(SongleaderAction::ForceSinging, 10);
    s.handle_incoming_event(SongleaderAction::Skal, 20);
    match &s.state.mode {
        Mode::Tempo { init_t, .. } => assert_eq!(*init_t, 20),
        other => panic!("unexpected mode {other:?}"),
    }
}

#[test]
fn tempo_deadline_shrinks_with_votes() {
    let mut s = in_tempo_mode(1000);
    assert!(!s.tempo_timed_out(421000));
    assert!(s.tempo_timed_out(421001));
    s.handle_incoming_event(SongleaderAction::Tempo { nick: "alice".to_string() }, 2000);
    assert!(!s.tempo_timed_out(361000));
    assert!(s.tempo_timed_out(361001));
    let effs = s.check_tempo_timeout(100);
    assert!(effs.is_empty());
    assert!(matches!(s.state.mode, Mode::Tempo { .. }));
    s.check_tempo_timeout(361001);
    match &s.state.mode {
        Mode::Bingo { song, .. } => assert_eq!(song.id, "tf-sangbok-150-halvankaren"),
        other => panic!("unexpected mode {other:?}"),
    }
}

#[test]
fn bingo_without_songs_returns_to_tempo() {
    let mut s = new_songleader();
    s.handle_incoming_event(SongleaderAction::ForceTempo, 0);
    let effs = s.handle_incoming_event(SongleaderAction::ForceBingo, 50);
    assert_eq!(texts(&effs), vec!["No songs found :(, add more songs: !request <url>".to_string()]);
    match &s.state.mode {
        Mode::Tempo { nicks, init_t } => {
            assert!(nicks.is_empty());
            assert_eq!(*init_t, 50);
        }
        other => panic!("unexpected mode {other:?}"),
    }
}

#[test]
fn requests_are_picked_after_first_songs() {
    let mut s = new_songleader();
    s.handle_incoming_event(SongleaderAction::RequestSong { song: request("visan", "Visan", "alice") }, 0);
    s.handle_incoming_event(SongleaderAction::ForceBingo, 0);
    match &s.state.mode {
        Mode::Bingo { song, .. } => assert_eq!(song.id, "visan"),
        other => panic!("unexpected mode {other:?}"),
    }
    assert!(s.state.requests.is_empty());
}

#[test]
fn request_is_added_once() {
    let mut s = new_songleader();
    let effs = s.handle_incoming_event(SongleaderAction::RequestSong { song: request("visan", "Visan", "alice") }, 0);
    assert_eq!(texts(&effs), vec!["Added Visan to requests".to_string()]);
    let effs = s.handle_incoming_event(SongleaderAction::RequestSong { song: request("visan", "Other", "bob") }, 0);
    assert_eq!(texts(&effs), vec!["Error while requesting song: Song already requested".to_string()]);
    assert_eq!(s.state.requests.len(), 1);
}

#[test]
fn requesting_a_backup_song_moves_it() {
    let mut s = new_songleader();
    s.handle_incoming_event(SongleaderAction::Begin, 0);
    let backup = s.state.backup[2].clone();
    let r = s.state.add_request(backup.clone());
    assert_eq!(r.unwrap().id, backup.id);
    assert_eq!(s.state.backup.len(), 6);
    assert_eq!(s.state.requests.len(), 1);
    assert!(s.state.backup.iter().all(|b| b.id != backup.id));
}

#[test]
fn removing_requests() {
    let mut s = new_songleader();
    s.state.add_request(request("a", "A", "alice")).unwrap();
    s.state.add_request(request("b", "B", "bob")).unwrap();
    s.state.add_request(request("c", "C", "alice")).unwrap();
    let effs = s.handle_incoming_event(SongleaderAction::RmSongByNick { nick: "alice".to_string() }, 0);
    assert_eq!(texts(&effs), vec!["Removed C from requests".to_string()]);
    let effs = s.handle_incoming_event(SongleaderAction::RmSongById { id: "b".to_string() }, 0);
    assert_eq!(texts(&effs), vec!["Removed B from requests".to_string()]);
    let ids: Vec<String> = s.state.requests.iter().map(|r| r.id.clone()).collect();
    assert_eq!(ids, vec!["a".to_string()]);
    let effs = s.handle_incoming_event(SongleaderAction::RmSongById { id: "zzz".to_string() }, 0);
    assert_eq!(texts(&effs), vec!["Error while removing song: Song not found by id zzz".to_string()]);
    let effs = s.handle_incoming_event(SongleaderAction::RmSongByNick { nick: "zed".to_string() }, 0);
    assert_eq!(texts(&effs), vec!["Error while removing song: No song requests found by zed".to_string()]);
}

#[test]
fn error_messages() {
    assert_eq!(SongleaderError::AlreadyRequested.message(), "Song already requested");
    assert_eq!(SongleaderError::NotFoundById { id: "x".to_string() }.message(), "Song not found by id x");
    assert_eq!(SongleaderError::NoRequestsBy { nick: "n".to_string() }.message(), "No song requests found by n");
}

#[test]
fn list_songs() {
    let mut s = new_songleader();
    let effs = s.handle_incoming_event(SongleaderAction::ListSongs, 0);
    assert_eq!(texts(&effs), vec!["No requested songs found :(".to_string()]);
    s.state.add_request(request("a", "A", "alice")).unwrap();
    s.state.add_request(SongbookSong { id: "b".to_string(), ..Default::default() }).unwrap();
    let effs = s.handle_incoming_event(SongleaderAction::ListSongs, 0);
    assert_eq!(texts(&effs), vec!["Song requests: A, b".to_string()]);
}

#[test]
fn help_only_when_waiting() {
    let mut s = new_songleader();
    let effs = s.handle_incoming_event(SongleaderAction::Help, 0);
    let said = texts(&effs);
    assert_eq!(said.len(), 1);
    assert!(said[0].contains("!request https://example-songbook.com/tf-sangbok-150-teknologvisan"));
    s.handle_incoming_event(SongleaderAction::ForceSinging, 0);
    assert!(s.handle_incoming_event(SongleaderAction::Help, 0).is_empty());
}

#[test]
fn pause_and_end() {
    let mut s = in_tempo_mode(0);
    let effs = s.handle_incoming_event(SongleaderAction::End, 0);
    assert_eq!(texts(&effs), vec!["Party is over. go drunk, you are home....".to_string()]);
    assert!(matches!(s.state.mode, Mode::Inactive));
    assert!(s.handle_incoming_event(SongleaderAction::End, 0).is_empty());
    s.handle_incoming_event(SongleaderAction::ForceTempo, 0);
    let effs = s.handle_incoming_event(SongleaderAction::Pause, 0);
    assert!(matches!(s.state.mode, Mode::Inactive));
    assert!(effs.iter().any(|e| matches!(e, Effect::Send(Event::Playback(PlaybackAction::Play)))));
}

#[test]
fn fetched_requests() {
    let mut s = new_songleader();
    let effs = s.add_fetched_request(Err("URL mismatch, try pasting a URL from https://example-songbook.com".to_string()));
    assert_eq!(
        texts(&effs),
        vec!["Error while requesting song: URL mismatch, try pasting a URL from https://example-songbook.com".to_string()]
    );
    let effs = s.add_fetched_request(Ok(request("v", "V", "alice")));
    assert_eq!(texts(&effs), vec!["Added V to requests".to_string()]);
    // Requests by URL are fetched by the application first.
    let effs = s.handle_incoming_event(
        SongleaderAction::RequestSongUrl { url: "https://example-songbook.com/w".to_string(), queued_by: "bob".to_string() },
        0,
    );
    assert!(effs.is_empty());
    assert_eq!(s.state.requests.len(), 1);
}

#[test]
fn pop_next_song_order() {
    let mut state = SongleaderState::default();
    state.first_songs.push_back(request("f", "F", "x"));
    state.backup.push(request("b", "B", "x"));
    assert_eq!(state.pop_next_song().map(|s| s.id), Some("f".to_string()));
    assert_eq!(state.pop_next_song().map(|s| s.id), Some("b".to_string()));
    assert!(state.pop_next_song().is_none());
    let mut state = SongleaderState::default();
    state.requests.push(request("r1", "R1", "x"));
    state.requests.push(request("r2", "R2", "x"));
    state.backup.push(request("b", "B", "x"));
    assert_eq!(state.pick_range(), 2);
    let first = state.pop_next_song().unwrap();
    assert!(first.id == "r1" || first.id == "r2");
    assert_eq!(state.requests.len(), 1);
    assert_eq!(state.pop_next_song_with(0).map(|s| s.id).as_deref(), Some(if first.id == "r1" { "r2" } else { "r1" }));
    assert_eq!(state.pop_next_song().map(|s| s.id), Some("b".to_string()));
}
