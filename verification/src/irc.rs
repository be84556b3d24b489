//! Chat commands: what a line typed on IRC (or as text on Discord) asks the
//! bot to do, and the decisions around the IRC connection.

use vstd::prelude::*;

use crate::config::{Config, IrcConfig};
use crate::event::Event;
use crate::playback::{names, PlaybackAction, Song, MAX_SONG_DURATION_SECS};
use crate::songbook::SongbookSong;
use crate::songleader::SongleaderAction;
use crate::sources::espeak::{Priority, TextToSpeechAction};
use crate::text::{
    is_word, join_spaced, join_words_from, parse_usize, parse_usize_str, push_str, split_words,
    str_to_string, words, words_from,
};

verus! {

#[derive(Clone, Debug)]
pub enum IrcAction {
    SendMsg(String),
}

/// What a chat line asks for.
#[derive(Clone, Debug)]
pub enum IrcCommand {
    /// Something for the rest of the bot to do.
    Act(Event),
    /// Look up a YouTube URL or search terms for `nick`; the application
    /// fetches the song and hands the outcome to [song_lookup_outcome].
    LookUpSong { query: String, nick: String },
    /// Set the music volume (while speech plays, when `ducked`) to the
    /// number written in `value`; the application reads the number and
    /// ignores the command when it is none.
    SetVolume { ducked: bool, value: String },
}

/// Whether the pattern matches somewhere in the text.
pub uninterp spec fn regex_finds(pattern: Seq<char>, text: Seq<char>) -> bool;

/// `regex::Regex::is_match` for the regular expression written in
/// `pattern`: whether it matches somewhere in `text`; `false` when `pattern`
/// is not a valid regular expression. The result is named `regex_finds`;
/// nothing more of it is stated.
#[verifier::external_body]
pub(crate) fn regex_match(pattern: &str, text: &str) -> (b: bool)
    ensures
        b == regex_finds(pattern@, text@),
{
    match regex::Regex::new(pattern) {
        Ok(re) => re.is_match(text),
        Err(_) => false,
    }
}

/// The reply to a command that only channel operators may give.
pub open spec fn operator_required_text() -> Seq<char> {
    "Error: This command requires channel operator status"@
}

/// `r` tells IRC to say `text`.
pub open spec fn says_on_irc(r: Option<IrcCommand>, text: Seq<char>) -> bool {
    r matches Some(IrcCommand::Act(Event::Irc(IrcAction::SendMsg(m)))) && m@ == text
}

/// `r` is the songleader action `a`.
pub open spec fn leads(r: Option<IrcCommand>, a: SongleaderAction) -> bool {
    r == Some(IrcCommand::Act(Event::Songleader(a)))
}

/// `r` is the music queue action `a`.
pub open spec fn plays(r: Option<IrcCommand>, a: PlaybackAction) -> bool {
    r == Some(IrcCommand::Act(Event::Playback(a)))
}

/// `r` requests the song at `url` for `nick`.
pub open spec fn requests_url(r: Option<IrcCommand>, url: Seq<char>, nick: Seq<char>) -> bool {
    r matches Some(
        IrcCommand::Act(Event::Songleader(SongleaderAction::RequestSongUrl { url: u, queued_by: q })),
    ) && u@ == url && q@ == nick
}

/// The word at position `i`, if any.
pub open spec fn word_at(ws: Seq<Seq<char>>, i: int) -> Option<Seq<char>> {
    if 0 <= i < ws.len() {
        Some(ws[i])
    } else {
        None
    }
}

/// The number written in the word at position `i`, if any.
pub open spec fn number_at(ws: Seq<Seq<char>>, i: int) -> Option<usize> {
    match word_at(ws, i) {
        Some(w) => parse_usize(w),
        None => None,
    }
}

/// What `!song <subcommand> ...` asks of an operator.
pub open spec fn song_admin(r: Option<IrcCommand>, ws: Seq<Seq<char>>, nick: Seq<char>) -> bool {
    let sub = ws[1];
    let tail = join_spaced(words_from(ws, 2));
    if sub == "force-request"@ {
        if tail.len() == 0 {
            says_on_irc(r, "Error: Missing song name! Usage: !song force-request <song name>"@)
        } else {
            r matches Some(IrcCommand::Act(Event::Songleader(SongleaderAction::RequestSong { song })))
                && song.id@ == tail && song.url is None && (song.title matches Some(t) && t@ == tail)
                && song.book is None && (song.queued_by matches Some(q) && q@ == nick)
        }
    } else if sub == "force-tempo-mode"@ || sub == "resume"@ {
        leads(r, SongleaderAction::ForceTempo)
    } else if sub == "force-bingo-mode"@ {
        leads(r, SongleaderAction::ForceBingo)
    } else if sub == "force-singing-mode"@ {
        leads(r, SongleaderAction::ForceSinging)
    } else if sub == "pause"@ {
        leads(r, SongleaderAction::Pause)
    } else if sub == "end"@ || sub == "finish"@ {
        leads(r, SongleaderAction::End)
    } else if sub == "begin"@ {
        leads(r, SongleaderAction::Begin)
    } else if sub == "list"@ || sub == "queue"@ {
        leads(r, SongleaderAction::ListSongs)
    } else if sub == "rm"@ {
        if tail.len() == 0 {
            r matches Some(IrcCommand::Act(Event::Songleader(SongleaderAction::RmSongByNick { nick: n })))
                && n@ == nick
        } else {
            r matches Some(IrcCommand::Act(Event::Songleader(SongleaderAction::RmSongById { id })))
                && id@ == tail
        }
    } else {
        r is None
    }
}

/// What `!music <subcommand> ...` asks of an operator.
pub open spec fn music_admin(r: Option<IrcCommand>, ws: Seq<Seq<char>>, nick: Seq<char>) -> bool {
    let sub = ws[1];
    if sub == "next"@ || sub == "skip"@ {
        plays(r, PlaybackAction::Next)
    } else if sub == "prev"@ {
        plays(r, PlaybackAction::Prev)
    } else if sub == "play"@ || sub == "resume"@ {
        plays(r, PlaybackAction::Play)
    } else if sub == "pause"@ {
        plays(r, PlaybackAction::Pause)
    } else if sub == "rm"@ {
        match word_at(ws, 2) {
            Some(w) => match parse_usize(w) {
                Some(pos) => plays(r, PlaybackAction::RmSongByPos { pos }),
                None => r matches Some(IrcCommand::Act(Event::Playback(PlaybackAction::RmSongByNick { nick: n })))
                    && n@ == w,
            },
            None => r matches Some(IrcCommand::Act(Event::Playback(PlaybackAction::RmSongByNick { nick: n })))
                && n@ == nick,
        }
    } else if sub == "volume"@ || sub == "volume-ducked"@ {
        match word_at(ws, 2) {
            Some(w) => r matches Some(IrcCommand::SetVolume { ducked, value }) && ducked == (sub
                == "volume-ducked"@) && value@ == w,
            None => r is None,
        }
    } else if sub == "!queue"@ || sub == "!q"@ {
        plays(r, PlaybackAction::ListQueue { offset: number_at(ws, 2) })
    } else {
        r is None
    }
}

/// What a chat line (its words `ws`) typed by `nick` asks for; `pattern` is
/// the songbook URL pattern and `is_operator` whether the nick is a channel
/// operator.
pub open spec fn parsed(
    r: Option<IrcCommand>,
    ws: Seq<Seq<char>>,
    nick: Seq<char>,
    pattern: Seq<char>,
    is_operator: bool,
) -> bool {
    if ws.len() == 0 {
        r is None
    } else {
        let cmd = ws[0];
        let rest = join_spaced(words_from(ws, 1));
        if cmd == "!play"@ || cmd == "!p"@ {
            if regex_finds(pattern, rest) {
                requests_url(r, rest, nick)
            } else if rest.len() == 0 {
                says_on_irc(
                    r,
                    "Error: Missing YouTube URL or search terms! Usage: !play <URL or search terms>"@,
                )
            } else {
                r matches Some(IrcCommand::LookUpSong { query, nick: n }) && query@ == rest && n@
                    == nick
            }
        } else if cmd == "!queue"@ || cmd == "!q"@ || cmd == "!np"@ {
            plays(r, PlaybackAction::ListQueue { offset: number_at(ws, 1) })
        } else if cmd == "!rm"@ {
            r matches Some(IrcCommand::Act(Event::Playback(PlaybackAction::RmSongByNick { nick: n })))
                && n@ == nick
        } else if cmd == "!speak"@ || cmd == "!say"@ {
            r matches Some(IrcCommand::Act(Event::TextToSpeech(TextToSpeechAction::Speak { text, prio })))
                && text@ == rest && prio == Priority::Low
        } else if cmd == "!request"@ || cmd == "!req"@ || cmd == "!r"@ || cmd == "!add"@ {
            requests_url(r, rest, nick)
        } else if cmd == "!tempo"@ || cmd == "tempo"@ {
            r matches Some(IrcCommand::Act(Event::Songleader(SongleaderAction::Tempo { nick: n })))
                && n@ == nick
        } else if cmd == "!bingo"@ || cmd == "bingo"@ {
            r matches Some(IrcCommand::Act(Event::Songleader(SongleaderAction::Bingo { nick: n })))
                && n@ == nick
        } else if cmd == "!skål"@ || cmd == "skål"@ {
            leads(r, SongleaderAction::Skal)
        } else if cmd == "!ls"@ {
            leads(r, SongleaderAction::ListSongs)
        } else if cmd == "!help"@ {
            leads(r, SongleaderAction::Help)
        } else if cmd == "!song"@ || cmd == "!sing"@ {
            if !is_operator {
                says_on_irc(r, operator_required_text())
            } else if ws.len() < 2 {
                r is None
            } else {
                song_admin(r, ws, nick)
            }
        } else if cmd == "!music"@ || cmd == "!playback"@ {
            if !is_operator {
                says_on_irc(r, operator_required_text())
            } else if ws.len() < 2 {
                r is None
            } else {
                music_admin(r, ws, nick)
            }
        } else {
            r is None
        }
    }
}

/// A message for IRC.
fn irc_says(text: &str) -> (r: Option<IrcCommand>)
    ensures
        says_on_irc(r, text@),
{
    Some(IrcCommand::Act(Event::Irc(IrcAction::SendMsg(str_to_string(text)))))
}

/// The number written in the word at position `i`, if any.
fn number_at_exec(ws: &Vec<String>, i: usize) -> (r: Option<usize>)
    ensures
        r == number_at(names(ws@), i as int),
{
    if i < ws.len() {
        parse_usize_str(&ws[i])
    } else {
        None
    }
}

/// What `!song <subcommand> ...` asks of an operator.
fn song_admin_exec(ws: &Vec<String>, nick: &String) -> (r: Option<IrcCommand>)
    requires
        ws@.len() >= 2,
    ensures
        song_admin(r, names(ws@), nick@),
{
    let sub = &ws[1];
    let tail = join_words_from(ws, 2);
    if is_word(sub, "force-request") {
        if tail.unicode_len() == 0 {
            irc_says("Error: Missing song name! Usage: !song force-request <song name>")
        } else {
            let song = SongbookSong {
                id: tail.clone(),
                url: None,
                title: Some(tail),
                book: None,
                queued_by: Some(nick.clone()),
            };
            Some(IrcCommand::Act(Event::Songleader(SongleaderAction::RequestSong { song })))
        }
    } else if is_word(sub, "force-tempo-mode") || is_word(sub, "resume") {
        Some(IrcCommand::Act(Event::Songleader(SongleaderAction::ForceTempo)))
    } else if is_word(sub, "force-bingo-mode") {
        Some(IrcCommand::Act(Event::Songleader(SongleaderAction::ForceBingo)))
    } else if is_word(sub, "force-singing-mode") {
        Some(IrcCommand::Act(Event::Songleader(SongleaderAction::ForceSinging)))
    } else if is_word(sub, "pause") {
        Some(IrcCommand::Act(Event::Songleader(SongleaderAction::Pause)))
    } else if is_word(sub, "end") || is_word(sub, "finish") {
        Some(IrcCommand::Act(Event::Songleader(SongleaderAction::End)))
    } else if is_word(sub, "begin") {
        Some(IrcCommand::Act(Event::Songleader(SongleaderAction::Begin)))
    } else if is_word(sub, "list") || is_word(sub, "queue") {
        Some(IrcCommand::Act(Event::Songleader(SongleaderAction::ListSongs)))
    } else if is_word(sub, "rm") {
        if tail.unicode_len() == 0 {
            Some(IrcCommand::Act(Event::Songleader(SongleaderAction::RmSongByNick { nick: nick.clone() })))
        } else {
            Some(IrcCommand::Act(Event::Songleader(SongleaderAction::RmSongById { id: tail })))
        }
    } else {
        None
    }
}

/// What `!music <subcommand> ...` asks of an operator.
fn music_admin_exec(ws: &Vec<String>, nick: &String) -> (r: Option<IrcCommand>)
    requires
        ws@.len() >= 2,
    ensures
        music_admin(r, names(ws@), nick@),
{
    let sub = &ws[1];
    if is_word(sub, "next") || is_word(sub, "skip") {
        Some(IrcCommand::Act(Event::Playback(PlaybackAction::Next)))
    } else if is_word(sub, "prev") {
        Some(IrcCommand::Act(Event::Playback(PlaybackAction::Prev)))
    } else if is_word(sub, "play") || is_word(sub, "resume") {
        Some(IrcCommand::Act(Event::Playback(PlaybackAction::Play)))
    } else if is_word(sub, "pause") {
        Some(IrcCommand::Act(Event::Playback(PlaybackAction::Pause)))
    } else if is_word(sub, "rm") {
        if ws.len() > 2 {
            match parse_usize_str(&ws[2]) {
                Some(pos) => Some(IrcCommand::Act(Event::Playback(PlaybackAction::RmSongByPos { pos }))),
                None => Some(IrcCommand::Act(Event::Playback(PlaybackAction::RmSongByNick { nick: ws[2].clone() }))),
            }
        } else {
            Some(IrcCommand::Act(Event::Playback(PlaybackAction::RmSongByNick { nick: nick.clone() })))
        }
    } else if is_word(sub, "volume") || is_word(sub, "volume-ducked") {
        if ws.len() > 2 {
            Some(IrcCommand::SetVolume { ducked: is_word(sub, "volume-ducked"), value: ws[2].clone() })
        } else {
            None
        }
    } else if is_word(sub, "!queue") || is_word(sub, "!q") {
        Some(IrcCommand::Act(Event::Playback(PlaybackAction::ListQueue { offset: number_at_exec(ws, 2) })))
    } else {
        None
    }
}

/// What a chat line typed by `nick` asks for, or `None` when it is no
/// command. `is_operator` tells whether the nick is a channel operator; the
/// songbook URL pattern comes from the configuration.
pub fn message_to_action(text: &str, nick: &String, config: &Config, is_operator: bool) -> (r: Option<IrcCommand>)
    ensures
        parsed(r, words(text@), nick@, config.songbook.songbook_re@, is_operator),
{
    let ws = split_words(text);
    assert(names(ws@) =~= ws@.map_values(|w: String| w@));
    if ws.len() == 0 {
        return None;
    }
    let cmd = &ws[0];
    let rest = join_words_from(&ws, 1);
    if is_word(cmd, "!play") || is_word(cmd, "!p") {
        if regex_match(config.songbook.songbook_re.as_str(), rest.as_str()) {
            Some(IrcCommand::Act(Event::Songleader(SongleaderAction::RequestSongUrl { url: rest, queued_by: nick.clone() })))
        } else if rest.unicode_len() == 0 {
            irc_says("Error: Missing YouTube URL or search terms! Usage: !play <URL or search terms>")
        } else {
            Some(IrcCommand::LookUpSong { query: rest, nick: nick.clone() })
        }
    } else if is_word(cmd, "!queue") || is_word(cmd, "!q") || is_word(cmd, "!np") {
        Some(IrcCommand::Act(Event::Playback(PlaybackAction::ListQueue { offset: number_at_exec(&ws, 1) })))
    } else if is_word(cmd, "!rm") {
        Some(IrcCommand::Act(Event::Playback(PlaybackAction::RmSongByNick { nick: nick.clone() })))
    } else if is_word(cmd, "!speak") || is_word(cmd, "!say") {
        Some(IrcCommand::Act(Event::TextToSpeech(TextToSpeechAction::Speak { text: rest, prio: Priority::Low })))
    } else if is_word(cmd, "!request") || is_word(cmd, "!req") || is_word(cmd, "!r") || is_word(cmd, "!add") {
        Some(IrcCommand::Act(Event::Songleader(SongleaderAction::RequestSongUrl { url: rest, queued_by: nick.clone() })))
    } else if is_word(cmd, "!tempo") || is_word(cmd, "tempo") {
        Some(IrcCommand::Act(Event::Songleader(SongleaderAction::Tempo { nick: nick.clone() })))
    } else if is_word(cmd, "!bingo") || is_word(cmd, "bingo") {
        Some(IrcCommand::Act(Event::Songleader(SongleaderAction::Bingo { nick: nick.clone() })))
    } else if is_word(cmd, "!skål") || is_word(cmd, "skål") {
        Some(IrcCommand::Act(Event::Songleader(SongleaderAction::Skal)))
    } else if is_word(cmd, "!ls") {
        Some(IrcCommand::Act(Event::Songleader(SongleaderAction::ListSongs)))
    } else if is_word(cmd, "!help") {
        Some(IrcCommand::Act(Event::Songleader(SongleaderAction::Help)))
    } else if is_word(cmd, "!song") || is_word(cmd, "!sing") {
        if !is_operator {
            irc_says("Error: This command requires channel operator status")
        } else if ws.len() < 2 {
            None
        } else {
            song_admin_exec(&ws, nick)
        }
    } else if is_word(cmd, "!music") || is_word(cmd, "!playback") {
        if !is_operator {
            irc_says("Error: This command requires channel operator status")
        } else if ws.len() < 2 {
            None
        } else {
            music_admin_exec(&ws, nick)
        }
    } else {
        None
    }
}

/// The event for a song looked up on YouTube: enqueue it, unless it is too
/// long or the lookup failed.
pub fn song_lookup_outcome(looked_up: Result<Song, String>) -> (e: Event)
    ensures
        match looked_up {
            Ok(song) => if song.duration > MAX_SONG_DURATION_SECS {
                e matches Event::Irc(IrcAction::SendMsg(m)) && m@
                    == "Requested song is too long! Max duration is "@ + crate::text::decimal(
                    (MAX_SONG_DURATION_SECS / 60) as nat,
                ) + " minutes."@
            } else {
                e == Event::Playback(PlaybackAction::Enqueue { song })
            },
            Err(msg) => e matches Event::Irc(IrcAction::SendMsg(m)) && m@
                == "Error while getting song info: "@ + msg@,
        },
{
    match looked_up {
        Ok(song) => {
            if song.duration > MAX_SONG_DURATION_SECS {
                let mut m = str_to_string("Requested song is too long! Max duration is ");
                crate::text::push_decimal(&mut m, MAX_SONG_DURATION_SECS / 60);
                push_str(&mut m, " minutes.");
                assert(m@ =~= "Requested song is too long! Max duration is "@ + crate::text::decimal(
                    (MAX_SONG_DURATION_SECS / 60) as nat,
                ) + " minutes."@);
                Event::Irc(IrcAction::SendMsg(m))
            } else {
                Event::Playback(PlaybackAction::Enqueue { song })
            }
        },
        Err(msg) => {
            let mut m = str_to_string("Error while getting song info: ");
            push_str(&mut m, msg.as_str());
            assert(m@ =~= "Error while getting song info: "@ + msg@);
            Event::Irc(IrcAction::SendMsg(m))
        },
    }
}

/// Commands that are shown on the other platforms as the user typed them.
pub open spec fn mirrored_command(cmd: Seq<char>) -> bool {
    ||| cmd == "!tempo"@
    ||| cmd == "tempo"@
    ||| cmd == "!bingo"@
    ||| cmd == "bingo"@
    ||| cmd == "!skål"@
    ||| cmd == "skål"@
    ||| cmd == "!speak"@
    ||| cmd == "!say"@
    ||| cmd == "!request"@
    ||| cmd == "!req"@
    ||| cmd == "!r"@
    ||| cmd == "!rm"@
}

/// Whether a chat line is shown on the other platforms: every line that is
/// no command, the commands that others should see, and `!play` commands
/// that enqueued a song.
pub open spec fn mirrored(ws: Seq<Seq<char>>, outcome: Option<Event>) -> bool {
    match outcome {
        None => true,
        Some(e) => {
            let cmd = if ws.len() > 0 {
                ws[0]
            } else {
                ""@
            };
            mirrored_command(cmd) || ((cmd == "!play"@ || cmd == "!p"@) && e is Playback && (
            e->Playback_0 is Enqueue))
        },
    }
}

/// Whether a chat line is shown on the other platforms, given what it led
/// to (`None` when it is no command).
pub fn should_mirror(text: &str, outcome: Option<&Event>) -> (b: bool)
    ensures
        b == mirrored(
            words(text@),
            match outcome {
                Some(e) => Some(*e),
                None => None,
            },
        ),
{
    let e = match outcome {
        None => return true,
        Some(e) => e,
    };
    let ws = split_words(text);
    assert(names(ws@) =~= ws@.map_values(|w: String| w@));
    let cmd = if ws.len() > 0 {
        ws[0].clone()
    } else {
        str_to_string("")
    };
    let listed = is_word(&cmd, "!tempo") || is_word(&cmd, "tempo") || is_word(&cmd, "!bingo")
        || is_word(&cmd, "bingo") || is_word(&cmd, "!skål") || is_word(&cmd, "skål") || is_word(
        &cmd,
        "!speak",
    ) || is_word(&cmd, "!say") || is_word(&cmd, "!request") || is_word(&cmd, "!req") || is_word(
        &cmd,
        "!r",
    ) || is_word(&cmd, "!rm");
    let enqueued = match e {
        Event::Playback(PlaybackAction::Enqueue { .. }) => true,
        _ => false,
    };
    listed || ((is_word(&cmd, "!play") || is_word(&cmd, "!p")) && enqueued)
}

/// First delay before reconnecting to IRC, in seconds.
pub const RECONNECT_INITIAL_DELAY_SECS: u64 = 1;

/// Longest delay between reconnection attempts, in seconds.
pub const RECONNECT_MAX_DELAY_SECS: u64 = 30;

/// The delay before the next reconnection attempt: twice the last one, at
/// most thirty seconds.
pub fn next_reconnect_delay(delay_secs: u64) -> (d: u64)
    ensures
        d == if 2 * delay_secs < RECONNECT_MAX_DELAY_SECS {
            2 * delay_secs
        } else {
            RECONNECT_MAX_DELAY_SECS as int
        },
{
    if delay_secs < RECONNECT_MAX_DELAY_SECS / 2 {
        delay_secs * 2
    } else {
        RECONNECT_MAX_DELAY_SECS
    }
}

/// The port to connect to: the configured one, else 6697 with TLS and 6667
/// without.
pub fn irc_port(config: &IrcConfig) -> (p: u16)
    ensures
        p == match config.irc_port {
            Some(port) => port,
            None => if config.irc_use_tls == Some(true) {
                6697u16
            } else {
                6667u16
            },
        },
{
    match config.irc_port {
        Some(port) => port,
        None => {
            let use_tls = match config.irc_use_tls {
                Some(b) => b,
                None => false,
            };
            if use_tls {
                6697
            } else {
                6667
            }
        },
    }
}

/// Nicknames to fall back on: the configured one with a digit from 1 to 9
/// appended.
pub fn alt_nicks(base: &String) -> (v: Vec<String>)
    ensures
        v@.len() == 9,
        forall|i: int| 0 <= i < 9 ==> (#[trigger] v@[i])@ == base@ + crate::text::decimal((i + 1) as nat),
{
    let mut v: Vec<String> = Vec::new();
    let mut i: u64 = 1;
    while i <= 9
        invariant
            1 <= i <= 10,
            v@.len() == i - 1,
            forall|k: int| 0 <= k < i - 1 ==> (#[trigger] v@[k])@ == base@ + crate::text::decimal((k + 1) as nat),
        decreases 10 - i,
    {
        let mut nick = base.clone();
        crate::text::push_decimal(&mut nick, i);
        v.push(nick);
        i = i + 1;
    }
    v
}

/// The lowercase form of a text, as `str::to_lowercase` gives it.
pub uninterp spec fn lowercase(s: Seq<char>) -> Seq<char>;

/// `str::to_lowercase` (std): the text with each character replaced by its
/// Unicode lowercase mapping. The result is named `lowercase`; nothing more
/// of it is stated.
#[verifier::external_body]
fn to_lowercase(s: &str) -> (r: String)
    ensures
        r@ == lowercase(s@),
{
    s.to_lowercase()
}

/// The operators after one entry of a channel's name list: `@nick` is an
/// operator, any other entry (`+nick` or a bare nick) is not.
pub open spec fn after_name_entry(ops: Set<Seq<char>>, entry: Seq<char>) -> Set<Seq<char>> {
    if entry.len() > 0 && entry[0] == '@' {
        ops.insert(lowercase(entry.drop_first()))
    } else if entry.len() > 0 && entry[0] == '+' {
        ops.remove(lowercase(entry.drop_first()))
    } else {
        ops.remove(lowercase(entry))
    }
}

/// The operators after the entries of a name list, in order.
pub open spec fn after_name_entries(ops: Set<Seq<char>>, entries: Seq<Seq<char>>) -> Set<Seq<char>>
    decreases entries.len(),
{
    if entries.len() == 0 {
        ops
    } else {
        after_name_entry(after_name_entries(ops, entries.drop_last()), entries.last())
    }
}

/// What the IRC side remembers across messages: whether it is connected and
/// which nicks (in lowercase) are channel operators.
pub struct IrcConnectionState {
    /// Whether a connection is up.
    pub connected: bool,
    /// Nicks of the channel operators, in lowercase.
    pub operators: Vec<String>,
}

impl IrcConnectionState {
    /// The channel operators, in lowercase.
    pub open spec fn operator_set(&self) -> Set<Seq<char>> {
        names(self.operators@).to_set()
    }

    /// Not connected, no operators known.
    pub fn new() -> (s: Self)
        ensures
            !s.connected,
            s.operator_set() == Set::<Seq<char>>::empty(),
    {
        let s = IrcConnectionState { connected: false, operators: Vec::new() };
        assert(names(s.operators@).to_set() =~= Set::<Seq<char>>::empty());
        s
    }

    /// Whether `nick` is a channel operator (case does not matter).
    pub fn is_operator(&self, nick: &str) -> (b: bool)
        ensures
            b == self.operator_set().contains(lowercase(nick@)),
    {
        let lower = to_lowercase(nick);
        crate::votes::has_name(&self.operators, &lower)
    }

    /// Takes in a channel's name list (`@` marks operators).
    pub fn update_operators(&mut self, name_list: &str)
        ensures
            final(self).operator_set() == after_name_entries(old(self).operator_set(), words(name_list@)),
            final(self).connected == old(self).connected,
    {
        let entries = split_words(name_list);
        let ghost es = entries@.map_values(|w: String| w@);
        let mut i: usize = 0;
        while i < entries.len()
            invariant
                i <= entries@.len(),
                es == entries@.map_values(|w: String| w@),
                es == words(name_list@),
                self.operator_set() == after_name_entries(old(self).operator_set(), es.take(i as int)),
                self.connected == old(self).connected,
            decreases entries.len() - i,
        {
            let ghost before = self.operator_set();
            let e = entries[i].as_str();
            let n = e.unicode_len();
            if n > 0 && e.get_char(0) == '@' {
                let lower = to_lowercase(e.substring_char(1, n));
                self.add_operator(lower);
            } else if n > 0 && e.get_char(0) == '+' {
                let lower = to_lowercase(e.substring_char(1, n));
                self.remove_operator(&lower);
            } else {
                let lower = to_lowercase(e);
                self.remove_operator(&lower);
            }
            proof {
                assert(es.take(i + 1).drop_last() =~= es.take(i as int));
                assert(es[i as int].drop_first() =~= es[i as int].subrange(1, n as int));
            }
            i = i + 1;
        }
        assert(es.take(entries@.len() as int) =~= es);
    }

    fn add_operator(&mut self, nick: String)
        ensures
            final(self).operator_set() == old(self).operator_set().insert(nick@),
            final(self).connected == old(self).connected,
    {
        if !crate::votes::has_name(&self.operators, &nick) {
            let ghost before = self.operators@;
            self.operators.push(nick);
            proof {
                assert(names(self.operators@) =~= names(before).push(self.operators@.last()@));
                assert(names(self.operators@).to_set() =~= names(before).to_set().insert(self.operators@.last()@)) by {
                    assert forall|x: Seq<char>| names(self.operators@).contains(x) <==> names(before).contains(x) || x == self.operators@.last()@ by {
                        if names(self.operators@).contains(x) {
                            let k = choose|k: int| 0 <= k < names(self.operators@).len() && names(self.operators@)[k] == x;
                            if k < before.len() {
                                assert(names(before)[k] == x);
                            }
                        }
                        if names(before).contains(x) {
                            let k = choose|k: int| 0 <= k < names(before).len() && names(before)[k] == x;
                            assert(names(self.operators@)[k] == x);
                        }
                        if x == self.operators@.last()@ {
                            assert(names(self.operators@)[before.len() as int] == x);
                        }
                    }
                }
            }
        } else {
            assert(names(self.operators@).to_set() =~= names(self.operators@).to_set().insert(nick@));
        }
    }

    fn remove_operator(&mut self, nick: &String)
        ensures
            final(self).operator_set() == old(self).operator_set().remove(nick@),
            final(self).connected == old(self).connected,
    {
        let ghost before = self.operators@;
        self.operators = crate::votes::remove_name(&self.operators, nick);
        proof {
            crate::playback_laws::lemma_without_name(names(before), nick@);
            assert(names(self.operators@).to_set() =~= names(before).to_set().remove(nick@));
        }
    }
}

/// Whether two channel names are equal up to ASCII case.
pub open spec fn same_channel(a: Seq<char>, b: Seq<char>) -> bool {
    a.len() == b.len() && forall|i: int| 0 <= i < a.len() ==> ascii_fold(#[trigger] a[i]) == ascii_fold(b[i])
}

/// A character's code with ASCII capitals made small.
pub open spec fn ascii_fold(c: char) -> int {
    if 'A' <= c <= 'Z' {
        c as int + 32
    } else {
        c as int
    }
}

/// Whether two channel names are equal up to ASCII case.
pub fn is_same_channel(a: &str, b: &str) -> (r: bool)
    ensures
        r == same_channel(a@, b@),
{
    let n = a.unicode_len();
    if n != b.unicode_len() {
        return false;
    }
    let mut i: usize = 0;
    while i < n
        invariant
            n == a@.len(),
            n == b@.len(),
            i <= n,
            forall|k: int| 0 <= k < i ==> ascii_fold(#[trigger] a@[k]) == ascii_fold(b@[k]),
        decreases n - i,
    {
        let x = a.get_char(i);
        let y = b.get_char(i);
        let fx: u32 = if 'A' <= x && x <= 'Z' { x as u32 + 32 } else { x as u32 };
        let fy: u32 = if 'A' <= y && y <= 'Z' { y as u32 + 32 } else { y as u32 };
        if fx != fy {
            assert(ascii_fold(a@[i as int]) != ascii_fold(b@[i as int]));
            return false;
        }
        i = i + 1;
    }
    true
}

/// Splitting a text into lines, character by character, as `str::lines`
/// does: the finished lines and the line being read.
pub open spec fn lines_acc(s: Seq<char>) -> (Seq<Seq<char>>, Seq<char>)
    decreases s.len(),
{
    if s.len() == 0 {
        (Seq::empty(), Seq::empty())
    } else {
        let (done, cur) = lines_acc(s.drop_last());
        if s.last() == '\n' {
            (done.push(without_cr(cur)), Seq::empty())
        } else {
            (done, cur.push(s.last()))
        }
    }
}

/// A line without the carriage return that ended it, if any.
pub open spec fn without_cr(line: Seq<char>) -> Seq<char> {
    if line.len() > 0 && line.last() == '\r' {
        line.drop_last()
    } else {
        line
    }
}

/// The lines of a text as `str::lines` gives them: split at each newline
/// (a carriage return before it is dropped), with no empty last line after
/// a final newline.
pub open spec fn text_lines(s: Seq<char>) -> Seq<Seq<char>> {
    let (done, cur) = lines_acc(s);
    if cur.len() > 0 {
        done.push(cur)
    } else {
        done
    }
}

/// The lines that are not empty, in order.
pub open spec fn non_empty(ls: Seq<Seq<char>>) -> Seq<Seq<char>>
    decreases ls.len(),
{
    if ls.len() == 0 {
        ls
    } else if ls.last().len() > 0 {
        non_empty(ls.drop_last()).push(ls.last())
    } else {
        non_empty(ls.drop_last())
    }
}

/// The lines of a text.
fn split_lines(text: &str) -> (ls: Vec<String>)
    ensures
        names(ls@) == text_lines(text@),
{
    let n = text.unicode_len();
    let mut done: Vec<String> = Vec::new();
    let mut cur = String::new();
    let mut i: usize = 0;
    while i < n
        invariant
            n == text@.len(),
            i <= n,
            names(done@) == lines_acc(text@.take(i as int)).0,
            cur@ == lines_acc(text@.take(i as int)).1,
        decreases n - i,
    {
        let c = text.get_char(i);
        proof {
            assert(text@.take(i + 1).drop_last() =~= text@.take(i as int));
            assert(text@.take(i + 1).last() == c);
        }
        if c == '\n' {
            let l = cur.unicode_len();
            let line = if l > 0 && cur.as_str().get_char(l - 1) == '\r' {
                let t = str_to_string(cur.as_str().substring_char(0, l - 1));
                assert(t@ =~= cur@.drop_last());
                t
            } else {
                cur.clone()
            };
            let ghost before = done@;
            done.push(line);
            assert(names(done@) =~= names(before).push(without_cr(cur@)));
            cur = String::new();
        } else {
            crate::text::string_push(&mut cur, c);
        }
        i = i + 1;
    }
    assert(text@.take(n as int) =~= text@);
    if cur.unicode_len() > 0 {
        let ghost before = done@;
        done.push(cur);
        assert(names(done@) =~= names(before).push(lines_acc(text@).1));
    }
    done
}

/// What the IRC side sends for an event: lines for the channel, and whether
/// to pause between them against flooding.
pub open spec fn irc_outgoing_spec(e: Event, lines: Seq<Seq<char>>, paced: bool) -> bool {
    match e {
        Event::Message(crate::message::MessageAction::Send { text, source, .. }) => if source
            == crate::message::Platform::Irc {
            lines.len() == 0 && !paced
        } else {
            lines == non_empty(text_lines(text@)) && paced
        },
        Event::Message(crate::message::MessageAction::Mirror { username, text, source }) => if source
            == crate::message::Platform::Irc {
            lines.len() == 0 && !paced
        } else {
            lines == seq![
                "<"@ + (if source == crate::message::Platform::Discord {
                    "discord"@
                } else {
                    "bot"@
                }) + ":"@ + username@ + "> "@ + text@,
            ] && !paced
        },
        Event::Irc(IrcAction::SendMsg(m)) => lines == seq![m@] && !paced,
        _ => lines.len() == 0 && !paced,
    }
}

/// What to send to the IRC channel for an event: the non-empty lines of a
/// message from another platform (paced against flooding), a mirrored
/// message as `<platform:user> text`, or a direct IRC message.
pub fn irc_outgoing(e: &Event) -> (r: (Vec<String>, bool))
    ensures
        irc_outgoing_spec(*e, names(r.0@), r.1),
{
    let mut out: Vec<String> = Vec::new();
    match e {
        Event::Message(crate::message::MessageAction::Send { text, source, .. }) => {
            if let crate::message::Platform::Irc = source {
                return (out, false);
            }
            let ls = split_lines(text.as_str());
            let mut i: usize = 0;
            while i < ls.len()
                invariant
                    i <= ls@.len(),
                    names(out@) == non_empty(names(ls@).take(i as int)),
                decreases ls.len() - i,
            {
                let ghost before = out@;
                assert(names(ls@).take(i + 1).drop_last() =~= names(ls@).take(i as int));
                if ls[i].unicode_len() > 0 {
                    out.push(ls[i].clone());
                    assert(names(out@) =~= names(before).push(names(ls@)[i as int]));
                }
                i = i + 1;
            }
            assert(names(ls@).take(ls@.len() as int) =~= names(ls@));
            (out, true)
        },
        Event::Message(crate::message::MessageAction::Mirror { username, text, source }) => {
            let platform = match source {
                crate::message::Platform::Irc => return (out, false),
                crate::message::Platform::Discord => "discord",
                crate::message::Platform::Bot => "bot",
            };
            let mut line = str_to_string("<");
            push_str(&mut line, platform);
            push_str(&mut line, ":");
            push_str(&mut line, username.as_str());
            push_str(&mut line, "> ");
            push_str(&mut line, text.as_str());
            out.push(line);
            assert(names(out@) =~= seq![out@[0]@]);
            (out, false)
        },
        Event::Irc(IrcAction::SendMsg(m)) => {
            out.push(m.clone());
            assert(names(out@) =~= seq![m@]);
            (out, false)
        },
        _ => (out, false),
    }
}

} // verus!
