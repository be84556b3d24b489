//! The mathematical model of the songleader: the texts it says, the effects
//! of each mode change, and the state after each action.

use vstd::prelude::*;

use crate::event::{is_bot_text, Effect, Event};
use crate::message::{CountdownValue, MessageAction, Platform, RichContent};
use crate::playback::PlaybackAction;
use crate::songbook::{display_text, title_or_id, SongbookSong};
use crate::songleader::{
    after_pop, all_songs, error_text, first_with_id, last_requested_by, popped, request_refused,
    with_request, ModeView, SongleaderAction, SongleaderError, SongleaderModel, NUM_BINGO_NICKS,
    NUM_TEMPO_NICKS,
};
use crate::sources::espeak::{Priority, TextToSpeechAction};
use crate::text::decimal;

verus! {

// ---------------------------------------------------------------------------
// Texts
/// The horizontal rule framing the help text.
pub open spec fn rule() -> Seq<char> {
    "==================================================================="@
}

/// The lines of the help text, with the songbook link filled in.
pub open spec fn help_lines(songbook_url: Seq<char>) -> Seq<Seq<char>> {
    seq![
        ""@,
        rule(),
        "Useful commands:"@,
        "Add a YouTube URL to the music queue:     !p https://youtu.be/dQw4w9WgXcQ"@,
        "Remove most recently queued music by you: !rm"@,
        "Request a song you want to sing:          !request "@ + songbook_url
            + "/tf-sangbok-150-teknologvisan"@,
        "List current requests:                    !ls"@,
        "To say stuff, use:                        !speak hello world"@,
        "For help during the evening:              !help"@,
        "And the most important - to sing a song:  !tempo"@,
        rule(),
    ]
}

/// Lines joined with newlines.
pub open spec fn join_lines(lines: Seq<Seq<char>>) -> Seq<char>
    decreases lines.len(),
{
    if lines.len() == 0 {
        Seq::empty()
    } else if lines.len() == 1 {
        lines[0]
    } else {
        join_lines(lines.drop_last()) + "\n"@ + lines.last()
    }
}

/// The help text.
pub open spec fn help_text(songbook_url: Seq<char>) -> Seq<char> {
    join_lines(help_lines(songbook_url))
}

/// The lines of the welcome at the start of the party.
pub open spec fn welcome_lines(songbook_url: Seq<char>) -> Seq<Seq<char>> {
    seq![
        "irc-sitz-rs 2.0.0"@,
        rule(),
        "Hi and welcome to this party. I will be your host today."@,
    ] + help_lines(songbook_url) + seq!["Have fun, and don't drown in the shower!"@, rule()]
}

/// Titles (or ids) of songs, separated by commas.
pub open spec fn join_titles(songs: Seq<SongbookSong>) -> Seq<char>
    decreases songs.len(),
{
    if songs.len() == 0 {
        Seq::empty()
    } else if songs.len() == 1 {
        title_or_id(songs[0])
    } else {
        join_titles(songs.drop_last()) + ", "@ + title_or_id(songs.last())
    }
}

/// The text listing the song requests.
pub open spec fn song_list_text(songs: Seq<SongbookSong>) -> Seq<char> {
    if songs.len() == 0 {
        "No requested songs found :("@
    } else {
        "Song requests: "@ + join_titles(songs)
    }
}

/// The announcement of the next song.
pub open spec fn bingo_text(song: SongbookSong) -> Seq<char> {
    (match song.url {
        Some(u) => "Next song coming up: "@ + display_text(song) + ". "@ + u@,
        None => "Next song coming up: "@ + display_text(song),
    }) + "\nType bingo when you have found it!"@
}

// ---------------------------------------------------------------------------
// Effects
/// One expected effect.
pub enum Cue {
    /// A plain message from the bot.
    Say(Seq<char>),
    /// High priority speech.
    Speak(Seq<char>),
    /// A pause, in milliseconds.
    Wait(u64),
    /// Exactly this effect.
    Exactly(Effect),
}

/// `e` is high priority speech of `text`.
pub open spec fn is_speech(e: Effect, text: Seq<char>) -> bool {
    e matches Effect::Send(Event::TextToSpeech(TextToSpeechAction::Speak { text: t, prio }))
        && t@ == text && prio == Priority::High
}

/// `e` is what the cue expects.
pub open spec fn cue_ok(e: Effect, c: Cue) -> bool {
    match c {
        Cue::Say(t) => is_bot_text(e, t),
        Cue::Speak(t) => is_speech(e, t),
        Cue::Wait(ms) => e == Effect::Sleep { millis: ms },
        Cue::Exactly(x) => e == x,
    }
}

/// The effects are, one for one, what the cues expect.
pub open spec fn follows(effs: Seq<Effect>, cues: Seq<Cue>) -> bool {
    effs.len() == cues.len() && forall|i: int| 0 <= i < effs.len() ==> cue_ok(#[trigger] effs[i], cues[i])
}

/// Saving the state.
pub open spec fn persist() -> Cue {
    Cue::Exactly(Effect::Persist)
}

/// Music playback allowed or stopped.
pub open spec fn music(allow: bool) -> Cue {
    Cue::Exactly(
        Effect::Send(
            Event::Playback(
                if allow {
                    PlaybackAction::Play
                } else {
                    PlaybackAction::Pause
                },
            ),
        ),
    )
}

/// Low priority speech allowed or not.
pub open spec fn low_prio_speech(allow: bool) -> Cue {
    Cue::Exactly(
        Effect::Send(
            Event::TextToSpeech(
                if allow {
                    TextToSpeechAction::AllowLowPrio
                } else {
                    TextToSpeechAction::DisallowLowPrio
                },
            ),
        ),
    )
}

/// The effects of becoming inactive or entering tempo mode: the state is
/// saved, music and low priority speech are allowed again.
pub open spec fn relax_cues() -> Seq<Cue> {
    seq![persist(), music(true), low_prio_speech(true)]
}

/// `e` is a countdown step with the given text and value.
pub open spec fn is_countdown(e: Effect, text: Seq<char>, value: CountdownValue) -> bool {
    &&& e matches Effect::Send(Event::Message(MessageAction::Send { text: t, rich, source }))
    &&& t@ == text
    &&& rich == Some(RichContent::Countdown { value })
    &&& source == Platform::Bot
}

/// The effects of entering singing mode: save, no low priority speech, a
/// jingle and a countdown of three seconds.
pub open spec fn singing_effects(effs: Seq<Effect>) -> bool {
    &&& effs.len() == 10
    &&& effs[0] == Effect::Persist
    &&& cue_ok(effs[1], low_prio_speech(false))
    &&& is_speech(effs[2], "PLING PLONG"@)
    &&& is_countdown(effs[3], "Song starts in 3"@, CountdownValue::Three)
    &&& effs[4] == Effect::Sleep { millis: 1000 }
    &&& is_countdown(effs[5], "2"@, CountdownValue::Two)
    &&& effs[6] == Effect::Sleep { millis: 1000 }
    &&& is_countdown(effs[7], "1"@, CountdownValue::One)
    &&& effs[8] == Effect::Sleep { millis: 1000 }
    &&& is_countdown(effs[9], "NOW!"@, CountdownValue::Now)
}

/// `e` announces the next song.
pub open spec fn is_bingo_announcement(e: Effect, song: SongbookSong) -> bool {
    &&& e matches Effect::Send(Event::Message(MessageAction::Send { text, rich, source }))
    &&& text@ == bingo_text(song)
    &&& rich == Some(RichContent::BingoAnnouncement { song })
    &&& source == Platform::Bot
}

/// The mode of waiting for tempo, entered at `now`.
pub open spec fn fresh_tempo(now: u64) -> ModeView {
    ModeView::Tempo { nicks: Seq::empty(), init_t: now }
}

/// The state with another mode.
pub open spec fn in_mode(m: SongleaderModel, mode: ModeView) -> SongleaderModel {
    SongleaderModel { mode, ..m }
}

/// The state after entering bingo mode: the next song is taken (`pick`
/// choosing among requests or backup songs) and awaited; with no song left
/// the songleader waits for tempo again.
pub open spec fn bingo_model(m: SongleaderModel, pick: int, now: u64) -> SongleaderModel {
    match popped(m, pick) {
        Some(song) => in_mode(after_pop(m, pick), ModeView::Bingo { nicks: Seq::empty(), song }),
        None => in_mode(m, fresh_tempo(now)),
    }
}

/// The effects of entering bingo mode.
pub open spec fn bingo_effects(effs: Seq<Effect>, m: SongleaderModel, pick: int) -> bool {
    match popped(m, pick) {
        Some(song) => {
            &&& effs.len() == 4
            &&& effs[0] == Effect::Persist
            &&& cue_ok(effs[1], music(false))
            &&& is_speech(effs[2], "Nästa sång kommer nu... "@ + display_text(song))
            &&& is_bingo_announcement(effs[3], song)
        },
        None => follows(
            effs,
            seq![Cue::Say("No songs found :(, add more songs: !request <url>"@)] + relax_cues(),
        ),
    }
}

/// The nicks after `nick` joins them (each nick counts once).
pub open spec fn with_nick(nicks: Seq<Seq<char>>, nick: Seq<char>) -> Seq<Seq<char>> {
    if nicks.contains(nick) {
        nicks
    } else {
        nicks.push(nick)
    }
}

/// The tempo deadline has passed: more than seven minutes since tempo mode
/// began, less a minute per nick that typed "!tempo".
pub open spec fn tempo_expired(mode: ModeView, now: u64) -> bool {
    mode matches ModeView::Tempo { nicks, init_t } && now + 60000 * nicks.len() > init_t + 420000
}

/// `e` confirms that `song` was added to the requests.
pub open spec fn is_request_added(e: Effect, song: SongbookSong) -> bool {
    &&& e matches Effect::Send(Event::Message(MessageAction::Send { text, rich, source }))
    &&& text@ == "Added "@ + display_text(song) + " to requests"@
    &&& rich == Some(RichContent::SongRequestAdded { song })
    &&& source == Platform::Bot
}

/// `e` confirms that `song` left the requests.
pub open spec fn is_request_removed(e: Effect, song: SongbookSong) -> bool {
    &&& e matches Effect::Send(Event::Message(MessageAction::Send { text, rich, source }))
    &&& text@ == "Removed "@ + display_text(song) + " from requests"@
    &&& rich matches Some(RichContent::SongRemoved { title }) && title@ == title_or_id(song)
    &&& source == Platform::Bot
}

/// `e` lists the songs.
pub open spec fn is_song_list(e: Effect, songs: Seq<SongbookSong>) -> bool {
    &&& e matches Effect::Send(Event::Message(MessageAction::Send { text, rich, source }))
    &&& text@ == song_list_text(songs)
    &&& rich matches Some(RichContent::SongRequestList { songs: v }) && v@ == songs
    &&& source == Platform::Bot
}

/// `e` is the help text.
pub open spec fn is_help(e: Effect, songbook_url: Seq<char>) -> bool {
    &&& e matches Effect::Send(Event::Message(MessageAction::Send { text, rich, source }))
    &&& text@ == help_text(songbook_url)
    &&& rich matches Some(RichContent::Help { songbook_url: u }) && u@ == songbook_url
    &&& source == Platform::Bot
}

/// A song of the party's songbook, with its page.
pub open spec fn is_party_song(
    s: SongbookSong,
    songbook_url: Seq<char>,
    title: Seq<char>,
    slug: Seq<char>,
    page: nat,
) -> bool {
    let id = "tf-sangbok-150-"@ + slug;
    &&& s.id@ == id
    &&& s.url matches Some(u) && u@ == songbook_url + "/"@ + id
    &&& s.title matches Some(t) && t@ == title
    &&& s.book matches Some(b) && b@ == "TF:s Sångbok 150 – s. "@ + decimal(page)
    &&& s.queued_by is None
}

/// The state once the party has begun: two songs to sing first, no
/// requests, seven backup songs, and singing.
pub open spec fn begun(m: SongleaderModel, url: Seq<char>) -> bool {
    &&& m.first.len() == 2
    &&& is_party_song(m.first[0], url, "Halvankaren"@, "halvankaren"@, 39)
    &&& is_party_song(m.first[1], url, "Fjärran han dröjer"@, "fjarran-han-drojer"@, 45)
    &&& m.requests.len() == 0
    &&& m.backup.len() == 7
    &&& is_party_song(m.backup[0], url, "Rattataa"@, "rattataa"@, 0)
    &&& is_party_song(m.backup[1], url, "Nu är det nu"@, "nu-ar-det-nu"@, 125)
    &&& is_party_song(m.backup[2], url, "Mera brännvin"@, "mera-brannvin"@, 83)
    &&& is_party_song(m.backup[3], url, "Tycker du som jag"@, "tycker-du-som-jag"@, 79)
    &&& is_party_song(m.backup[4], url, "Siffervisan"@, "siffervisan"@, 115)
    &&& is_party_song(m.backup[5], url, "Vad i allsin dar?"@, "vad-i-allsin-dar"@, 54)
    &&& is_party_song(m.backup[6], url, "Undulaten"@, "undulaten"@, 72)
    &&& m.mode == ModeView::Singing
}

/// Each line said, followed by a pause against flooding.
pub open spec fn line_cues(lines: Seq<Seq<char>>) -> Seq<Cue>
    decreases lines.len(),
{
    if lines.len() == 0 {
        Seq::empty()
    } else {
        line_cues(lines.drop_last()) + seq![Cue::Say(lines.last()), Cue::Wait(1200)]
    }
}

/// The first verse of the opening song.
pub open spec fn verse(i: int) -> Seq<char> {
    if i == 0 {
        "En liten fågel satt en gång, och sjöng i furuskog."@
    } else if i == 1 {
        "Han hade sjungit dagen lång, men dock ej sjungit nog."@
    } else {
        "Vad sjöng den lilla fågeln då? JO!"@
    }
}

/// The starting routine: music and low priority speech stop, a jingle, the
/// welcome, the first verse sung, and "Helan går".
pub open spec fn begin_cues(url: Seq<char>) -> Seq<Cue> {
    seq![
        music(false),
        low_prio_speech(false),
        Cue::Speak("Diii duuuu diii duuuu diii duuu"@),
        Cue::Wait(3000),
    ] + line_cues(welcome_lines(url)) + seq![
        Cue::Wait(3000),
        Cue::Say("*sjunger:*"@),
        Cue::Speak(verse(0)),
        Cue::Say(verse(0)),
        Cue::Wait(4000),
        Cue::Speak(verse(1)),
        Cue::Say(verse(1)),
        Cue::Wait(4000),
        Cue::Speak(verse(2)),
        Cue::Say(verse(2)),
        Cue::Wait(3000),
        Cue::Say("Helan går..."@),
        Cue::Speak("Helan går"@),
        persist(),
    ]
}

/// The effects of ending the party.
pub open spec fn end_cues() -> Seq<Cue> {
    seq![Cue::Say("Party is over. go drunk, you are home...."@)] + relax_cues()
}

/// `new` is the state after handling `action` in state `old`, at time `now`
/// (milliseconds), `pick` choosing the next song where one is taken.
pub open spec fn handled(
    old: SongleaderModel,
    new: SongleaderModel,
    action: SongleaderAction,
    now: u64,
    pick: int,
    url: Seq<char>,
) -> bool {
    match action {
        SongleaderAction::RequestSongUrl { .. } => new == old,
        SongleaderAction::RequestSong { song } => new == if request_refused(old, song) {
            old
        } else {
            with_request(old, song)
        },
        SongleaderAction::RmSongById { id } => new == match first_with_id(
            old.requests,
            id@,
            old.requests.len() as int,
        ) {
            Some(i) => SongleaderModel { requests: old.requests.remove(i), ..old },
            None => old,
        },
        SongleaderAction::RmSongByNick { nick } => new == match last_requested_by(
            old.requests,
            nick@,
            old.requests.len() as int,
        ) {
            Some(i) => SongleaderModel { requests: old.requests.remove(i), ..old },
            None => old,
        },
        SongleaderAction::Tempo { nick } => new == match old.mode {
            ModeView::Tempo { nicks, init_t } => {
                let n2 = with_nick(nicks, nick@);
                if n2.len() >= NUM_TEMPO_NICKS {
                    bingo_model(old, pick, now)
                } else {
                    in_mode(old, ModeView::Tempo { nicks: n2, init_t })
                }
            },
            _ => old,
        },
        SongleaderAction::Bingo { nick } => new == match old.mode {
            ModeView::Bingo { nicks, song } => {
                let n2 = with_nick(nicks, nick@);
                if n2.len() >= NUM_BINGO_NICKS {
                    in_mode(old, ModeView::Singing)
                } else {
                    in_mode(old, ModeView::Bingo { nicks: n2, song })
                }
            },
            _ => old,
        },
        SongleaderAction::Skal => new == if old.mode is Singing {
            in_mode(old, fresh_tempo(now))
        } else {
            old
        },
        SongleaderAction::ListSongs => new == old,
        SongleaderAction::ForceTempo => new == in_mode(old, fresh_tempo(now)),
        SongleaderAction::ForceBingo => new == bingo_model(old, pick, now),
        SongleaderAction::ForceSinging => new == in_mode(old, ModeView::Singing),
        SongleaderAction::Pause => new == in_mode(old, ModeView::Inactive),
        SongleaderAction::End => new == if old.mode is Inactive {
            old
        } else {
            in_mode(old, ModeView::Inactive)
        },
        SongleaderAction::Begin => if old.mode is Inactive {
            begun(new, url)
        } else {
            new == old
        },
        SongleaderAction::Help => new == old,
    }
}

/// `effs` are the effects of handling `action` in state `old`.
pub open spec fn handled_effects(
    effs: Seq<Effect>,
    old: SongleaderModel,
    action: SongleaderAction,
    pick: int,
    url: Seq<char>,
) -> bool {
    match action {
        SongleaderAction::RequestSongUrl { .. } => effs.len() == 0,
        SongleaderAction::RequestSong { song } => if request_refused(old, song) {
            follows(
                effs,
                seq![Cue::Say("Error while requesting song: "@ + error_text(SongleaderError::AlreadyRequested))],
            )
        } else {
            effs.len() == 2 && effs[0] == Effect::Persist && is_request_added(effs[1], song)
        },
        SongleaderAction::RmSongById { id } => match first_with_id(
            old.requests,
            id@,
            old.requests.len() as int,
        ) {
            Some(i) => effs.len() == 2 && effs[0] == Effect::Persist && is_request_removed(
                effs[1],
                old.requests[i],
            ),
            None => follows(
                effs,
                seq![Cue::Say("Error while removing song: "@ + "Song not found by id "@ + id@)],
            ),
        },
        SongleaderAction::RmSongByNick { nick } => match last_requested_by(
            old.requests,
            nick@,
            old.requests.len() as int,
        ) {
            Some(i) => effs.len() == 2 && effs[0] == Effect::Persist && is_request_removed(
                effs[1],
                old.requests[i],
            ),
            None => follows(
                effs,
                seq![Cue::Say("Error while removing song: "@ + "No song requests found by "@ + nick@)],
            ),
        },
        SongleaderAction::Tempo { nick } => match old.mode {
            ModeView::Tempo { nicks, .. } => if with_nick(nicks, nick@).len() >= NUM_TEMPO_NICKS {
                bingo_effects(effs, old, pick)
            } else {
                follows(effs, seq![persist()])
            },
            _ => effs.len() == 0,
        },
        SongleaderAction::Bingo { nick } => match old.mode {
            ModeView::Bingo { nicks, .. } => if with_nick(nicks, nick@).len() >= NUM_BINGO_NICKS {
                singing_effects(effs)
            } else {
                follows(effs, seq![persist()])
            },
            _ => effs.len() == 0,
        },
        SongleaderAction::Skal => if old.mode is Singing {
            follows(effs, relax_cues())
        } else {
            effs.len() == 0
        },
        SongleaderAction::ListSongs => effs.len() == 1 && is_song_list(effs[0], all_songs(old)),
        SongleaderAction::ForceTempo => follows(effs, relax_cues()),
        SongleaderAction::ForceBingo => bingo_effects(effs, old, pick),
        SongleaderAction::ForceSinging => singing_effects(effs),
        SongleaderAction::Pause => follows(effs, relax_cues()),
        SongleaderAction::End => if old.mode is Inactive {
            effs.len() == 0
        } else {
            follows(effs, end_cues())
        },
        SongleaderAction::Begin => if old.mode is Inactive {
            follows(effs, begin_cues(url))
        } else {
            effs.len() == 0
        },
        SongleaderAction::Help => if old.mode is Tempo || old.mode is Inactive {
            effs.len() == 1 && is_help(effs[0], url)
        } else {
            effs.len() == 0
        },
    }
}

} // verus!
