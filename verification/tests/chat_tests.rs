use irc_sitz_rs::config::{Config, IrcConfig, SongbookConfig};
use irc_sitz_rs::discord::{
    bingo_command, create_countdown_embed, create_enqueue_embed, create_queue_embed_with_votes, create_song_list_embed,
    discord_lookup_outcome, format_position_change, format_vote_indicator, message_post, play_command, play_outcome,
    playback_report, shown_upcoming, songleader_report, skal_command, tempo_command, text_message_to_action, DiscordPost, DiscordState,
};
use irc_sitz_rs::event::Event;
use irc_sitz_rs::irc::{
    alt_nicks, irc_outgoing, irc_port, is_same_channel, message_to_action, next_reconnect_delay, should_mirror,
    song_lookup_outcome, IrcAction, IrcCommand, IrcConnectionState,
};
use irc_sitz_rs::message::{CountdownValue, MessageAction, NowPlayingInfo, Platform};
use irc_sitz_rs::playback::{PlaybackAction, PlaybackState, Song, SongVotes};
use irc_sitz_rs::songbook::SongbookSong;
use irc_sitz_rs::songleader::{Mode, SongleaderAction, SongleaderState};
use irc_sitz_rs::sources::espeak::{Priority, TextToSpeechAction};
use irc_sitz_rs::votes::VoteTable;

fn config() -> Config {
    Config {
        irc: None,
        songbook: SongbookConfig {
            songbook_url: "https://example-songbook.com".to_string(),
            songbook_re: r"(https?://)?example-songbook\.com/(.+)".to_string(),
        },
        discord: None,
    }
}

fn song(id: &str, by: &str, duration: u64) -> Song {
    Song {
        id: id.to_string(),
        url: format!("https://youtu.be/{id}"),
        title: format!("Song {id}"),
        channel: "Channel".to_string(),
        duration,
        queued_by: by.to_string(),
    }
}

fn parse(text: &str, op: bool) -> Option<IrcCommand> {
    message_to_action(text, &"alice".to_string(), &config(), op)
}

fn irc_reply(cmd: Option<IrcCommand>) -> Option<String> {
    match cmd {
        Some(IrcCommand::Act(Event::Irc(IrcAction::SendMsg(m)))) => Some(m),
        _ => None,
    }
}

#[test]
fn irc_play_commands() {
    assert_eq!(
        irc_reply(parse("!play", false)).as_deref(),
        Some("Error: Missing YouTube URL or search terms! Usage: !play <URL or search terms>")
    );
    assert!(matches!(
        parse("!p https://example-songbook.com/visan", false),
        Some(IrcCommand::Act(Event::Songleader(SongleaderAction::RequestSongUrl { url, queued_by })))
            if url == "https://example-songbook.com/visan" && queued_by == "alice"
    ));
    assert!(matches!(
        parse("!p   never  gonna give", false),
        Some(IrcCommand::LookUpSong { query, nick }) if query == "never gonna give" && nick == "alice"
    ));
}

#[test]
fn irc_queue_commands() {
    assert!(matches!(parse("!q 3", false), Some(IrcCommand::Act(Event::Playback(PlaybackAction::ListQueue { offset: Some(3) })))));
    assert!(matches!(parse("!np", false), Some(IrcCommand::Act(Event::Playback(PlaybackAction::ListQueue { offset: None })))));
    assert!(matches!(parse("!queue x", false), Some(IrcCommand::Act(Event::Playback(PlaybackAction::ListQueue { offset: None })))));
    assert!(matches!(
        parse("!rm", false),
        Some(IrcCommand::Act(Event::Playback(PlaybackAction::RmSongByNick { nick }))) if nick == "alice"
    ));
}

#[test]
fn irc_songleader_commands() {
    assert!(matches!(
        parse("!speak hello   world", false),
        Some(IrcCommand::Act(Event::TextToSpeech(TextToSpeechAction::Speak { text, prio: Priority::Low }))) if text == "hello world"
    ));
    assert!(matches!(
        parse("!req https://example-songbook.com/x", false),
        Some(IrcCommand::Act(Event::Songleader(SongleaderAction::RequestSongUrl { url, .. }))) if url == "https://example-songbook.com/x"
    ));
    assert!(matches!(parse("tempo", false), Some(IrcCommand::Act(Event::Songleader(SongleaderAction::Tempo { nick }))) if nick == "alice"));
    assert!(matches!(parse("!bingo now", false), Some(IrcCommand::Act(Event::Songleader(SongleaderAction::Bingo { .. })))));
    assert!(matches!(parse("skål", false), Some(IrcCommand::Act(Event::Songleader(SongleaderAction::Skal)))));
    assert!(matches!(parse("!ls", false), Some(IrcCommand::Act(Event::Songleader(SongleaderAction::ListSongs)))));
    assert!(matches!(parse("!help", false), Some(IrcCommand::Act(Event::Songleader(SongleaderAction::Help)))));
    assert!(parse("hello there", false).is_none());
    assert!(parse("", false).is_none());
    assert!(parse("   ", false).is_none());
}

#[test]
fn irc_admin_commands_need_operator() {
    assert_eq!(irc_reply(parse("!song begin", false)).as_deref(), Some("Error: This command requires channel operator status"));
    assert_eq!(irc_reply(parse("!music next", false)).as_deref(), Some("Error: This command requires channel operator status"));
    assert!(matches!(parse("!song begin", true), Some(IrcCommand::Act(Event::Songleader(SongleaderAction::Begin)))));
    assert!(matches!(parse("!sing resume", true), Some(IrcCommand::Act(Event::Songleader(SongleaderAction::ForceTempo)))));
    assert!(matches!(parse("!song force-bingo-mode", true), Some(IrcCommand::Act(Event::Songleader(SongleaderAction::ForceBingo)))));
    assert!(matches!(parse("!song finish", true), Some(IrcCommand::Act(Event::Songleader(SongleaderAction::End)))));
    assert!(matches!(parse("!song queue", true), Some(IrcCommand::Act(Event::Songleader(SongleaderAction::ListSongs)))));
    assert!(parse("!song", true).is_none());
    assert!(parse("!song dance", true).is_none());
    assert!(matches!(
        parse("!song rm", true),
        Some(IrcCommand::Act(Event::Songleader(SongleaderAction::RmSongByNick { nick }))) if nick == "alice"
    ));
    assert!(matches!(
        parse("!song rm some id", true),
        Some(IrcCommand::Act(Event::Songleader(SongleaderAction::RmSongById { id }))) if id == "some id"
    ));
    assert_eq!(
        irc_reply(parse("!song force-request", true)).as_deref(),
        Some("Error: Missing song name! Usage: !song force-request <song name>")
    );
    match parse("!song force-request My  Song", true) {
        Some(IrcCommand::Act(Event::Songleader(SongleaderAction::RequestSong { song }))) => {
            assert_eq!(song.id, "My Song");
            assert_eq!(song.title.as_deref(), Some("My Song"));
            assert!(song.url.is_none());
            assert!(song.book.is_none());
            assert_eq!(song.queued_by.as_deref(), Some("alice"));
        }
        other => panic!("unexpected {other:?}"),
    }
}

#[test]
fn irc_music_admin_commands() {
    assert!(matches!(parse("!music skip", true), Some(IrcCommand::Act(Event::Playback(PlaybackAction::Next)))));
    assert!(matches!(parse("!playback prev", true), Some(IrcCommand::Act(Event::Playback(PlaybackAction::Prev)))));
    assert!(matches!(parse("!music resume", true), Some(IrcCommand::Act(Event::Playback(PlaybackAction::Play)))));
    assert!(matches!(parse("!music pause", true), Some(IrcCommand::Act(Event::Playback(PlaybackAction::Pause)))));
    assert!(matches!(parse("!music rm 2", true), Some(IrcCommand::Act(Event::Playback(PlaybackAction::RmSongByPos { pos: 2 })))));
    assert!(matches!(
        parse("!music rm bob", true),
        Some(IrcCommand::Act(Event::Playback(PlaybackAction::RmSongByNick { nick }))) if nick == "bob"
    ));
    assert!(matches!(
        parse("!music rm", true),
        Some(IrcCommand::Act(Event::Playback(PlaybackAction::RmSongByNick { nick }))) if nick == "alice"
    ));
    assert!(matches!(parse("!music volume 0.5", true), Some(IrcCommand::SetVolume { ducked: false, value }) if value == "0.5"));
    assert!(matches!(parse("!music volume-ducked 0.1", true), Some(IrcCommand::SetVolume { ducked: true, value }) if value == "0.1"));
    assert!(parse("!music volume", true).is_none());
    assert!(matches!(parse("!music !q 2", true), Some(IrcCommand::Act(Event::Playback(PlaybackAction::ListQueue { offset: Some(2) })))));
    assert!(parse("!music loud", true).is_none());
}

#[test]
fn irc_song_lookup() {
    match song_lookup_outcome(Ok(song("a", "alice", 601))) {
        Event::Irc(IrcAction::SendMsg(m)) => assert_eq!(m, "Requested song is too long! Max duration is 10 minutes."),
        other => panic!("unexpected {other:?}"),
    }
    assert!(matches!(song_lookup_outcome(Ok(song("a", "alice", 600))), Event::Playback(PlaybackAction::Enqueue { song }) if song.id == "a"));
    match song_lookup_outcome(Err("boom".to_string())) {
        Event::Irc(IrcAction::SendMsg(m)) => assert_eq!(m, "Error while getting song info: boom"),
        other => panic!("unexpected {other:?}"),
    }
}

#[test]
fn irc_mirroring() {
    let enqueue = Event::Playback(PlaybackAction::Enqueue { song: song("a", "alice", 10) });
    let reply = Event::Irc(IrcAction::SendMsg("x".to_string()));
    let listing = Event::Playback(PlaybackAction::ListQueue { offset: None });
    assert!(should_mirror("just chatting", None));
    assert!(should_mirror("!tempo", Some(&Event::Songleader(SongleaderAction::Tempo { nick: "a".to_string() }))));
    assert!(should_mirror("!p song", Some(&enqueue)));
    assert!(!should_mirror("!p song", Some(&reply)));
    assert!(!should_mirror("!q", Some(&listing)));
}

#[test]
fn irc_outgoing_lines() {
    let bot = Event::Message(MessageAction::Send { text: "one\n\ntwo\r\n".to_string(), rich: None, source: Platform::Bot });
    assert_eq!(irc_outgoing(&bot), (vec!["one".to_string(), "two".to_string()], true));
    let from_irc = Event::Message(MessageAction::Send { text: "x".to_string(), rich: None, source: Platform::Irc });
    assert_eq!(irc_outgoing(&from_irc), (vec![], false));
    let mirror = Event::Message(MessageAction::Mirror { username: "bob".to_string(), text: "hi".to_string(), source: Platform::Discord });
    assert_eq!(irc_outgoing(&mirror), (vec!["<discord:bob> hi".to_string()], false));
    let own_mirror = Event::Message(MessageAction::Mirror { username: "bob".to_string(), text: "hi".to_string(), source: Platform::Irc });
    assert_eq!(irc_outgoing(&own_mirror), (vec![], false));
    assert_eq!(irc_outgoing(&Event::Irc(IrcAction::SendMsg("direct".to_string()))), (vec!["direct".to_string()], false));
    assert_eq!(irc_outgoing(&Event::Playback(PlaybackAction::Next)), (vec![], false));
}

#[test]
fn irc_connection_settings() {
    assert_eq!(next_reconnect_delay(1), 2);
    assert_eq!(next_reconnect_delay(8), 16);
    assert_eq!(next_reconnect_delay(16), 30);
    assert_eq!(next_reconnect_delay(30), 30);
    let mut c = IrcConfig {
        irc_nickname: "bot".to_string(),
        irc_server: "localhost".to_string(),
        irc_port: None,
        irc_channel: "#test".to_string(),
        irc_use_tls: None,
    };
    assert_eq!(irc_port(&c), 6667);
    c.irc_use_tls = Some(true);
    assert_eq!(irc_port(&c), 6697);
    c.irc_port = Some(7000);
    assert_eq!(irc_port(&c), 7000);
    let nicks = alt_nicks(&"bot".to_string());
    assert_eq!(nicks.len(), 9);
    assert_eq!(nicks[0], "bot1");
    assert_eq!(nicks[8], "bot9");
    assert!(is_same_channel("#Test", "#test"));
    assert!(!is_same_channel("#test", "#tests"));
}

#[test]
fn irc_operators() {
    let mut s = IrcConnectionState::new();
    assert!(!s.connected);
    assert!(!s.is_operator("alice"));
    s.update_operators("@Alice +Bob carol");
    assert!(s.is_operator("alice"));
    assert!(s.is_operator("ALICE"));
    assert!(!s.is_operator("bob"));
    assert!(!s.is_operator("carol"));
    s.update_operators("Alice @bob");
    assert!(!s.is_operator("alice"));
    assert!(s.is_operator("Bob"));
}

#[test]
fn discord_vote_and_position_markers() {
    let up = SongVotes { upvotes: vec!["a".to_string(), "b".to_string()], downvotes: vec![] };
    let down = SongVotes { upvotes: vec![], downvotes: vec!["c".to_string()] };
    let even = SongVotes { upvotes: vec!["a".to_string()], downvotes: vec!["c".to_string()] };
    assert_eq!(format_vote_indicator(Some(&up)), " 👍+2");
    assert_eq!(format_vote_indicator(Some(&down)), " 👎-1");
    assert_eq!(format_vote_indicator(Some(&even)), "");
    assert_eq!(format_vote_indicator(None), "");
    assert_eq!(format_position_change(3, 1), " ↑2");
    assert_eq!(format_position_change(1, 3), " ↓2");
    assert_eq!(format_position_change(2, 2), "");
}

#[test]
fn discord_embeds() {
    let e = create_enqueue_embed(&song("a", "alice", 180), 5);
    assert_eq!(e.title.as_deref(), Some("✅ Song a"));
    assert_eq!(e.url.as_deref(), Some("https://youtu.be/a"));
    assert_eq!(e.color, Some(0x00ff00));
    assert_eq!(e.description.as_deref(), Some("Added to queue • React 👍/👎 to move up/down"));
    let fields: Vec<(String, String, bool)> = e.fields.iter().map(|f| (f.name.clone(), f.value.clone(), f.inline)).collect();
    assert_eq!(
        fields,
        vec![
            ("📺 Channel".to_string(), "Channel".to_string(), true),
            ("👤 Queued by".to_string(), "alice".to_string(), true),
            ("⏱️ Time until playback".to_string(), "5 min".to_string(), true),
        ]
    );
    let c = create_countdown_embed(&CountdownValue::Three);
    assert_eq!(c.title.as_deref(), Some("3️⃣"));
    assert_eq!(c.color, Some(0xff0000));
    let c = create_countdown_embed(&CountdownValue::Now);
    assert_eq!(c.title.as_deref(), Some("🎤 NOW!"));

    let empty = create_song_list_embed(&vec![]);
    assert_eq!(empty.title.as_deref(), Some("📜 Song Requests"));
    assert_eq!(empty.description.as_deref(), Some("No songs requested yet! Use `/request` to add one."));
    let songs = vec![
        SongbookSong { id: "a".to_string(), title: Some("A".to_string()), queued_by: Some("alice".to_string()), ..Default::default() },
        SongbookSong { id: "b".to_string(), ..Default::default() },
    ];
    let list = create_song_list_embed(&songs);
    assert_eq!(list.description.as_deref(), Some("1. A (by alice)\n2. b"));
    assert!(list.footer.is_none());
    let many: Vec<SongbookSong> = (0..27).map(|i| SongbookSong { id: format!("s{i}"), ..Default::default() }).collect();
    let list = create_song_list_embed(&many);
    assert_eq!(list.footer.as_deref(), Some("... and 2 more songs"));
}

#[test]
fn discord_queue_embed() {
    let np = NowPlayingInfo { song: song("a", "alice", 180), progress_secs: 90 };
    let upcoming = vec![song("b", "bob", 240), song("c", "carol", 60)];
    let mut votes = VoteTable::new();
    votes.upvote(&"c".to_string(), &"dave".to_string());
    let e = create_queue_embed_with_votes(Some(&np), &upcoming, &votes, 2, 5, true, 50);
    assert_eq!(e.title.as_deref(), Some("▶️ Now playing: Song a"));
    assert_eq!(e.color, Some(0x00ff00));
    let fields: Vec<(String, String)> = e.fields.iter().map(|f| (f.name.clone(), f.value.clone())).collect();
    assert_eq!(
        fields,
        vec![
            ("👤 Queued by".to_string(), "alice".to_string()),
            ("📺 Channel".to_string(), "Channel".to_string()),
            ("Progress".to_string(), "▓▓▓▓▓▓▓▓▓▓░░░░░░░░░░\n1:30 / 3:00".to_string()),
            (
                "📋 Up next".to_string(),
                "2. [Song c](https://youtu.be/c) 👍+1 ↑1 - carol\n3. [Song b](https://youtu.be/b) ↓1 - bob".to_string()
            ),
        ]
    );
    assert_eq!(e.footer.as_deref(), Some("Queue: 2 songs (5 min) • React ⏭️ to vote skip"));

    let idle = create_queue_embed_with_votes(None, &vec![], &VoteTable::new(), 0, 0, false, 0);
    assert_eq!(idle.title.as_deref(), Some("⏸️ No song playing"));
    assert_eq!(idle.description.as_deref(), Some("Queue is empty!"));
    assert!(idle.fields.is_empty());
}

#[test]
fn discord_posts() {
    let upcoming: Vec<Song> = vec![];
    let votes = VoteTable::new();
    let mirror = MessageAction::Mirror { username: "bob".to_string(), text: "hi".to_string(), source: Platform::Irc };
    assert!(matches!(message_post(&mirror, &upcoming, &votes, 0), Some(DiscordPost::Text(t)) if t == "**[IRC] bob:** hi"));
    let own = MessageAction::Mirror { username: "bob".to_string(), text: "hi".to_string(), source: Platform::Discord };
    assert!(message_post(&own, &upcoming, &votes, 0).is_none());
    let blank = MessageAction::bot_say("  \n ".to_string());
    assert!(message_post(&blank, &upcoming, &votes, 0).is_none());
    let text = MessageAction::bot_say("hello".to_string());
    assert!(matches!(message_post(&text, &upcoming, &votes, 0), Some(DiscordPost::Text(t)) if t == "hello"));
    let err = MessageAction::error("Error during music playback: x".to_string());
    assert!(matches!(message_post(&err, &upcoming, &votes, 0), Some(DiscordPost::Embed(e)) if e.description.as_deref() == Some("Error during music playback: x")));
    let queued: Vec<Song> = (0..12).map(|i| song(&format!("s{i}"), "x", 1)).collect();
    let shown = shown_upcoming(&queued);
    assert_eq!(shown.len(), 9);
    assert_eq!(shown[0].id, "s1");
    assert_eq!(shown[8].id, "s9");
    assert!(shown_upcoming(&vec![song("a", "x", 1)]).is_empty());
}

#[test]
fn discord_reactions() {
    let mut d = DiscordState::new();
    d.on_bingo_posted(10);
    let events = d.on_reaction_add(10, "🎉", "alice".to_string(), false, true);
    assert!(matches!(events.as_slice(), [Event::Songleader(SongleaderAction::Bingo { nick })] if nick == "alice"));

    d.on_enqueue_posted("s1".to_string(), 20);
    let events = d.on_reaction_add(20, "👍", "bob".to_string(), false, true);
    assert!(matches!(events.as_slice(), [Event::Playback(PlaybackAction::Upvote { song_id, user })] if song_id == "s1" && user == "bob"));
    let events = d.on_reaction_add(20, "👎", "bob".to_string(), false, true);
    assert!(matches!(events.as_slice(), [Event::Playback(PlaybackAction::Downvote { .. })]));
    assert!(d.on_reaction_add(20, "👍", "botty".to_string(), true, true).is_empty());
    assert!(d.on_reaction_add(20, "🎉", "bob".to_string(), false, true).is_empty());
    assert!(matches!(
        d.on_reaction_remove(20, "👍", "bob".to_string(), false),
        Some(Event::Playback(PlaybackAction::RemoveUpvote { song_id, user })) if song_id == "s1" && user == "bob"
    ));
    assert!(d.on_reaction_remove(20, "👍", "botty".to_string(), true).is_none());
    assert!(d.on_reaction_remove(99, "👍", "bob".to_string(), false).is_none());
}

#[test]
fn discord_skip_votes() {
    let mut d = DiscordState::new();
    assert!(d.on_queue_status_posted(30, Some("cur".to_string()), true));
    assert_eq!(d.now_playing_message_id, Some(30));
    assert!(d.on_reaction_add(30, "⏭️", "a".to_string(), false, true).is_empty());
    assert!(d.on_reaction_add(30, "⏭️", "a".to_string(), false, true).is_empty());
    assert!(d.on_reaction_add(30, "⏭️", "b".to_string(), false, true).is_empty());
    let events = d.on_reaction_add(30, "⏭️", "c".to_string(), false, true);
    assert!(matches!(events.as_slice(), [Event::Playback(PlaybackAction::Next)]));
    assert!(d.skip_votes.is_empty());

    // While music is paused, enough votes do not skip.
    let mut d = DiscordState::new();
    d.on_queue_status_posted(31, Some("cur".to_string()), true);
    for nick in ["a", "b", "c"] {
        assert!(d.on_reaction_add(31, "⏭️", nick.to_string(), false, false).is_empty());
    }
    // A new song drops the votes, and old messages stop counting.
    assert!(!d.on_queue_status_posted(32, Some("next".to_string()), false));
    assert!(d.skip_votes.is_empty());
    assert!(d.on_reaction_add(31, "⏭️", "a".to_string(), false, true).is_empty());
    assert!(d.skip_votes.is_empty());
}

#[test]
fn discord_text_commands() {
    let nick = "alice".to_string();
    let c = config();
    assert!(text_message_to_action("!p", &nick, &c).is_none());
    assert!(matches!(text_message_to_action("!play some song", &nick, &c), Some(IrcCommand::LookUpSong { query, .. }) if query == "some song"));
    assert!(matches!(
        text_message_to_action("!play https://example-songbook.com/x", &nick, &c),
        Some(IrcCommand::Act(Event::Songleader(SongleaderAction::RequestSongUrl { .. })))
    ));
    assert!(matches!(text_message_to_action("!ls", &nick, &c), Some(IrcCommand::Act(Event::Songleader(SongleaderAction::ListSongs)))));
    assert!(matches!(text_message_to_action("!skål", &nick, &c), Some(IrcCommand::Act(Event::Songleader(SongleaderAction::Skal)))));
    assert!(text_message_to_action("!rm", &nick, &c).is_none());
    assert!(text_message_to_action("hello", &nick, &c).is_none());
    assert!(discord_lookup_outcome(Ok(song("a", "alice", 601))).is_none());
    assert!(discord_lookup_outcome(Err("x".to_string())).is_none());
    assert!(matches!(discord_lookup_outcome(Ok(song("a", "alice", 60))), Some(Event::Playback(PlaybackAction::Enqueue { .. }))));
}

#[test]
fn discord_slash_play() {
    let c = config();
    assert!(matches!(
        play_command("https://example-songbook.com/x".to_string(), "alice".to_string(), &c),
        IrcCommand::Act(Event::Songleader(SongleaderAction::RequestSongUrl { url, queued_by })) if url == "https://example-songbook.com/x" && queued_by == "alice"
    ));
    assert!(matches!(
        play_command("rick astley".to_string(), "alice".to_string(), &c),
        IrcCommand::LookUpSong { query, nick } if query == "rick astley" && nick == "alice"
    ));
    let (s, reply) = play_outcome(Ok(song("a", "alice", 601)));
    assert!(s.is_none());
    assert_eq!(reply, "❌ Song is too long! Max duration is 10 minutes.");
    let (s, reply) = play_outcome(Ok(song("a", "alice", 60)));
    assert_eq!(s.map(|s| s.id).as_deref(), Some("a"));
    assert_eq!(reply, "🎵 Added **Song a** to the queue");
    let (s, reply) = play_outcome(Err("not found".to_string()));
    assert!(s.is_none());
    assert_eq!(reply, "❌ Error: not found");
}

#[test]
fn discord_mode_commands() {
    let alice = "alice".to_string();
    assert_eq!(
        tempo_command(&Mode::Inactive, &alice),
        (false, "❌ The party hasn't started yet. Use `/song_admin begin` to start.".to_string())
    );
    assert_eq!(tempo_command(&Mode::Starting, &alice), (false, "❌ The party is starting, please wait...".to_string()));
    let tempo = Mode::Tempo { nicks: vec!["bob".to_string()], init_t: 0 };
    assert_eq!(tempo_command(&tempo, &alice), (true, "⏭️ Tempo! (2/3, need 1 more)".to_string()));
    assert_eq!(tempo_command(&tempo, &"bob".to_string()), (true, "⏭️ You already voted! (1/3)".to_string()));
    let tempo2 = Mode::Tempo { nicks: vec!["bob".to_string(), "carol".to_string()], init_t: 0 };
    assert_eq!(tempo_command(&tempo2, &alice), (true, "⏭️ Tempo! 🎉 That's enough votes, moving to bingo!".to_string()));

    let song = SongbookSong { id: "v".to_string(), title: Some("Visan".to_string()), ..Default::default() };
    let bingo = Mode::Bingo { nicks: vec![], song };
    assert_eq!(bingo_command(&bingo, &alice), (true, "🎯 Found **Visan**! (1/3, need 2 more)".to_string()));
    assert_eq!(
        bingo_command(&tempo, &alice),
        (false, "❌ We're in tempo mode. Use `/tempo` to speedup waiting for the next song.".to_string())
    );
    assert_eq!(tempo_command(&bingo, &alice), (false, "❌ We're waiting for bingo! Use `/bingo` instead.".to_string()));
    assert_eq!(skal_command(&Mode::Singing), (true, "🍻 Skål!".to_string()));
    assert_eq!(
        skal_command(&tempo),
        (false, "❌ No song is being sung. Use `/tempo` to speedup waiting for the next song.".to_string())
    );
    assert_eq!(
        skal_command(&bingo),
        (false, "❌ We're waiting for bingo! Use `/bingo` when you've found the song.".to_string())
    );
}

#[test]
fn discord_progress_refresh() {
    let mut d = DiscordState::new();
    assert_eq!(d.progress_message(true), None);
    d.on_queue_status_posted(40, Some("cur".to_string()), true);
    assert_eq!(d.progress_message(true), Some(40));
    assert_eq!(d.progress_message(false), None);
    d.on_progress_refresh_failed(false);
    assert_eq!(d.now_playing_message_id, Some(40));
    assert_eq!(d.current_song_id.as_deref(), Some("cur"));
    d.on_progress_refresh_failed(true);
    assert_eq!(d.now_playing_message_id, None);
    assert_eq!(d.current_song_id.as_deref(), Some("cur"));
}

#[test]
fn discord_state_report() {
    let mut state = SongleaderState::default();
    assert_eq!(songleader_report(&state), "**Mode:** Inactive\n**Requests:** 0\n**First songs:** 0\n**Backup:** 0");
    state.requests.push(SongbookSong { id: "r".to_string(), ..Default::default() });
    state.mode = Mode::Tempo { nicks: vec!["a".to_string()], init_t: 0 };
    assert_eq!(songleader_report(&state), "**Mode:** Tempo (1/3 votes)\n**Requests:** 1\n**First songs:** 0\n**Backup:** 0");
    state.mode = Mode::Bingo { nicks: vec![], song: SongbookSong { id: "v".to_string(), ..Default::default() } };
    assert!(songleader_report(&state).starts_with("**Mode:** Bingo (0/3 ready) - v\n"));

    let mut playback = PlaybackState::default();
    assert_eq!(
        playback_report(&playback),
        "**Now playing:** (nothing)\n**Queue:** 0 songs\n**Played:** 0 songs\n**Playing:** No\n**Should play:** Yes\n**Songs with votes:** 0"
    );
    playback.queued_songs = vec![song("a", "alice", 10), song("b", "bob", 10)];
    playback.is_playing = true;
    playback.song_votes.upvote(&"b".to_string(), &"carol".to_string());
    assert_eq!(
        playback_report(&playback),
        "**Now playing:** Song a\n**Queue:** 2 songs\n**Played:** 0 songs\n**Playing:** Yes\n**Should play:** Yes\n**Songs with votes:** 1"
    );
}
