use irc_sitz_rs::buffer::PlaybackBuffer;
use irc_sitz_rs::config::SongbookConfig;
use irc_sitz_rs::message::{MessageAction, Platform, RichContent};
use irc_sitz_rs::mixer::{create_source_buffer, Ducking, UNDUCK_SILENCE_SAMPLES};
use irc_sitz_rs::songbook::{song_from_page, song_id_from_url, SongInfoError};
use irc_sitz_rs::sources::espeak::{queue_speech, silent_samples, strip_nul, SPEECH_PADDING_SAMPLES};
use irc_sitz_rs::sources::symphonia::{
    decoder_waits, decoding_finished, monitor_tick, playback_error, player_steps, prepare_buffer, stereo_pairs,
    DecodeResult, SymphoniaAction, BUFFER_HIGH_WATER, BUFFER_LOW_WATER,
};
use irc_sitz_rs::youtube::{song_from_video, youtube_url, VideoInfoError};

fn songbook() -> SongbookConfig {
    SongbookConfig {
        songbook_url: "https://example-songbook.com".to_string(),
        songbook_re: r"(https?://)?example-songbook\.com/(.+)".to_string(),
    }
}

#[test]
fn songbook_ids_from_urls() {
    assert_eq!(song_id_from_url("https://example-songbook.com/visan", &songbook()).unwrap(), "visan");
    assert_eq!(song_id_from_url("example-songbook.com/a/b", &songbook()).unwrap(), "a/b");
    match song_id_from_url("https://elsewhere.com/visan", &songbook()) {
        Err(e @ SongInfoError::UrlMismatch { .. }) => {
            assert_eq!(e.message(), "URL mismatch, try pasting a URL from https://example-songbook.com")
        }
        other => panic!("unexpected {other:?}"),
    }
    let no_group = SongbookConfig { songbook_url: "https://example-songbook.com".to_string(), songbook_re: "example".to_string() };
    match song_id_from_url("https://example-songbook.com/visan", &no_group) {
        Err(e @ SongInfoError::NoIdInUrl) => assert_eq!(e.message(), "No ID found in URL"),
        other => panic!("unexpected {other:?}"),
    }
}

#[test]
fn songbook_song_from_page() {
    let html = r#"<html><body><h1>Visan</h1><h1>Other</h1>
        <div class="SongTags__Wrapper-abc"><span>Tag</span><span>Sångboken</span></div></body></html>"#;
    let song = song_from_page("https://example-songbook.com/visan", "visan".to_string(), html, &"alice".to_string());
    assert_eq!(song.id, "visan");
    assert_eq!(song.url.as_deref(), Some("https://example-songbook.com/visan"));
    assert_eq!(song.title.as_deref(), Some("Visan"));
    assert_eq!(song.book.as_deref(), Some("Sångboken"));
    assert_eq!(song.queued_by.as_deref(), Some("alice"));
    assert_eq!(song.to_display_string(), "Visan (Sångboken)");

    let bare = song_from_page("u", "id".to_string(), "<p>nothing</p>", &"bob".to_string());
    assert!(bare.title.is_none());
    assert!(bare.book.is_none());
    assert_eq!(bare.to_display_string(), "id");
}

#[test]
fn youtube_songs() {
    assert_eq!(youtube_url("abc"), "https://youtu.be/abc");
    let ok = song_from_video("abc".to_string(), Some("T".to_string()), Some("C".to_string()), Some(Some(200)), "alice".to_string())
        .unwrap();
    assert_eq!(ok.url, "https://youtu.be/abc");
    assert_eq!(ok.title, "T");
    assert_eq!(ok.channel, "C");
    assert_eq!(ok.duration, 200);
    assert_eq!(ok.queued_by, "alice");
    let err = |t: Option<&str>, c: Option<&str>, d: Option<Option<u64>>| {
        song_from_video("x".to_string(), t.map(String::from), c.map(String::from), d, "a".to_string()).unwrap_err().message()
    };
    assert_eq!(err(None, Some("C"), Some(Some(1))), "No title found in yt-dlp JSON!");
    assert_eq!(err(Some("T"), None, None), "No channel found in yt-dlp JSON!");
    assert_eq!(err(Some("T"), Some("C"), None), "No duration found in yt-dlp JSON!");
    assert_eq!(err(Some("T"), Some("C"), Some(None)), "Invalid duration in yt-dlp JSON");
    assert_eq!(VideoInfoError::NoVideo.message(), "No video found");
}

#[test]
fn speech_is_padded_with_silence() {
    let mut buffer = PlaybackBuffer::new();
    buffer.push_samples(vec![(7, 7)]);
    queue_speech(&mut buffer, vec![(1, 2), (3, 4)], false);
    assert_eq!(buffer.buffer_level(), 1 + 2 * SPEECH_PADDING_SAMPLES + 2);
    let head = buffer.pull_samples(1);
    assert_eq!(head, vec![(7, 7)]);
    let silence = buffer.pull_samples(SPEECH_PADDING_SAMPLES);
    assert!(silence.iter().all(|s| *s == (0, 0)));
    assert_eq!(buffer.pull_samples(2), vec![(1, 2), (3, 4)]);

    // High priority speech drops what was still pending.
    let mut buffer = PlaybackBuffer::new();
    buffer.push_samples(vec![(7, 7); 10]);
    queue_speech(&mut buffer, vec![(5, 5)], true);
    assert_eq!(buffer.buffer_level(), 2 * SPEECH_PADDING_SAMPLES + 1);
    assert_eq!(buffer.total_samples_consumed(), 0);
    assert_eq!(silent_samples(3), vec![(0, 0); 3]);
}

#[test]
fn speech_text_without_nul() {
    assert_eq!(strip_nul("a\0b\0"), "ab");
    assert_eq!(strip_nul("Skål!"), "Skål!");
    assert_eq!(strip_nul(""), "");
}

#[test]
fn decoded_samples_are_paired() {
    assert_eq!(stereo_pairs(&[1, 2, 3, 4, 5]), vec![(1, 2), (3, 4)]);
    assert!(stereo_pairs(&[]).is_empty());
}

#[test]
fn player_requests() {
    let play = SymphoniaAction::PlayYtUrl { url: "u".to_string() };
    let steps = player_steps(&play);
    assert!(steps.cancel_monitor && steps.cancel_decoder && steps.start_decoding);
    let steps = player_steps(&SymphoniaAction::Stop);
    assert!(steps.cancel_monitor && steps.cancel_decoder && !steps.start_decoding);
    let steps = player_steps(&SymphoniaAction::Pause);
    assert!(!steps.cancel_monitor && !steps.cancel_decoder && !steps.start_decoding);

    let mut buffer = PlaybackBuffer::new();
    buffer.push_samples(vec![(9, 9); 4]);
    prepare_buffer(&SymphoniaAction::Pause, &mut buffer);
    assert_eq!(buffer.pull_samples(2), vec![(0, 0); 2]);
    assert_eq!(buffer.buffer_level(), 4);
    prepare_buffer(&SymphoniaAction::Resume, &mut buffer);
    assert_eq!(buffer.pull_samples(2), vec![(9, 9); 2]);
    prepare_buffer(&play, &mut buffer);
    assert_eq!(buffer.buffer_level(), 0);
    assert_eq!(buffer.total_samples_consumed(), 0);
}

#[test]
fn playback_monitor_detects_end() {
    let mut buffer = PlaybackBuffer::new();
    buffer.push_samples(vec![(1, 1); 96000]);
    buffer.pull_samples(48000);
    assert_eq!(monitor_tick(&buffer), (1, false));
    decoding_finished(&DecodeResult::Cancelled, &mut buffer);
    assert!(!buffer.is_eof());
    decoding_finished(&DecodeResult::EndOfFile { total_samples: 96000 }, &mut buffer);
    assert!(buffer.is_eof());
    assert_eq!(monitor_tick(&buffer), (1, false));
    buffer.pull_samples(48000);
    assert_eq!(monitor_tick(&buffer), (2, true));
}

#[test]
fn decoder_backpressure() {
    assert!(decoder_waits(BUFFER_HIGH_WATER, false));
    assert!(!decoder_waits(BUFFER_HIGH_WATER - 1, false));
    assert!(decoder_waits(BUFFER_LOW_WATER, true));
    assert!(!decoder_waits(BUFFER_LOW_WATER - 1, true));
}

#[test]
fn playback_error_message() {
    match playback_error("stream failed") {
        MessageAction::Send { text, rich: Some(RichContent::Error { message }), source: Platform::Bot } => {
            assert_eq!(text, "Error during music playback: stream failed");
            assert_eq!(message, text);
        }
        other => panic!("unexpected {other:?}"),
    }
}

#[test]
fn ducking_follows_speech() {
    let mut d = Ducking::new();
    assert!(!d.is_ducked());
    d.observe((0, 100));
    assert!(!d.is_ducked());
    d.observe((0, 101));
    assert!(d.is_ducked());
    for _ in 0..UNDUCK_SILENCE_SAMPLES - 1 {
        d.observe((0, 0));
    }
    assert!(d.is_ducked());
    d.observe((0, 0));
    assert!(!d.is_ducked());
    d.observe((i16::MIN, 0));
    assert!(d.is_ducked());
}

#[test]
fn shared_source_buffer_starts_empty() {
    let shared = create_source_buffer();
    let mut buffer = shared.lock().unwrap();
    assert!(!buffer.has_data());
    assert_eq!(buffer.pull_samples(3), vec![(0, 0); 3]);
}

#[test]
fn level_is_pushed_minus_pulled_since_clear() {
    let mut buffer = PlaybackBuffer::new();
    buffer.push_samples(vec![(1, 1); 10]);
    buffer.pull_samples(3);
    buffer.set_paused(true);
    buffer.pull_samples(4);
    buffer.set_paused(false);
    buffer.pull_samples(2);
    assert_eq!(buffer.buffer_level(), 10 - 3 - 2);
    assert_eq!(buffer.total_samples_consumed(), 5);
    buffer.pull_samples(20);
    assert_eq!(buffer.buffer_level(), 0);
    assert_eq!(buffer.total_samples_consumed(), 10);
    buffer.clear();
    buffer.push_samples(vec![(2, 2); 5]);
    buffer.pull_samples(1);
    assert_eq!(buffer.buffer_level(), 4);
    assert_eq!(buffer.total_samples_consumed(), 1);
}
