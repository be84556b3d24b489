//! What the Discord side shows: vote and position markers, and the
//! contents of its rich messages.

use vstd::prelude::*;

use crate::config::Config;
use crate::event::Event;
use crate::irc::{leads, parsed, regex_finds, regex_match, requests_url, IrcCommand};
use crate::sources::espeak::{Priority, TextToSpeechAction};
use crate::message::{CountdownValue, MessageAction, NowPlayingInfo, Platform, RichContent};
use crate::playback::{PlaybackAction, MAX_SONG_DURATION_SECS};
use crate::songleader::SongleaderAction;
use crate::songleader_model::with_nick;
use crate::songleader::{Mode, ModeView, SongleaderModel, SongleaderState, NUM_BINGO_NICKS, NUM_TEMPO_NICKS};
use crate::text::{char_is_space, is_space, is_word, join_spaced, join_words_from, split_words, words, words_from};
use crate::playback::{names, score_of, vote_order_from, Song, SongVotes};
use crate::playback_model::{in_vote_order, score_at, PlaybackModel};
use crate::playback::PlaybackState;
use crate::text::{push_two_digits, two_digits};
use crate::votes::{score_in, VoteTable};
use crate::playback::VotesView;
use crate::songbook::{opt_chars, title_or_id, SongbookSong};
use crate::text::{decimal, push_decimal, push_str, str_to_string};

verus! {

/// A signed number in decimal.
pub open spec fn signed_decimal(n: int) -> Seq<char> {
    if n < 0 {
        "-"@ + decimal((-n) as nat)
    } else {
        decimal(n as nat)
    }
}

/// The vote marker of a song: thumbs up with the score when positive,
/// thumbs down with the (negative) score when negative, nothing otherwise.
pub open spec fn vote_indicator(votes: Option<SongVotes>) -> Seq<char> {
    match votes {
        Some(v) => if score_of(v@) > 0 {
            " 👍+"@ + decimal(score_of(v@) as nat)
        } else if score_of(v@) < 0 {
            " 👎"@ + signed_decimal(score_of(v@))
        } else {
            Seq::empty()
        },
        None => Seq::empty(),
    }
}

/// The vote marker of a song.
pub fn format_vote_indicator(votes: Option<&SongVotes>) -> (s: String)
    requires
        votes matches Some(v) ==> v.upvotes@.len() <= i32::MAX && v.downvotes@.len() <= i32::MAX,
    ensures
        s@ == vote_indicator(
            match votes {
                Some(v) => Some(*v),
                None => None,
            },
        ),
{
    match votes {
        Some(v) => {
            let score = v.score();
            if score > 0 {
                let mut s = str_to_string(" 👍+");
                push_decimal(&mut s, score as u64);
                assert(s@ =~= " 👍+"@ + decimal(score_of(v@) as nat));
                s
            } else if score < 0 {
                let mut s = str_to_string(" 👎");
                push_str(&mut s, "-");
                let magnitude = (-(score as i64)) as u64;
                push_decimal(&mut s, magnitude);
                assert(s@ =~= " 👎"@ + signed_decimal(score_of(v@)));
                s
            } else {
                String::new()
            }
        },
        None => String::new(),
    }
}

/// The marker of a song that votes moved: up or down by how many places.
pub open spec fn position_change(original_pos: int, current_pos: int) -> Seq<char> {
    if current_pos < original_pos {
        " ↑"@ + decimal((original_pos - current_pos) as nat)
    } else if current_pos > original_pos {
        " ↓"@ + decimal((current_pos - original_pos) as nat)
    } else {
        Seq::empty()
    }
}

/// The marker of a song that votes moved.
pub fn format_position_change(original_pos: usize, current_pos: usize) -> (s: String)
    ensures
        s@ == position_change(original_pos as int, current_pos as int),
{
    if current_pos < original_pos {
        let mut s = str_to_string(" ↑");
        push_decimal(&mut s, (original_pos - current_pos) as u64);
        assert(s@ =~= position_change(original_pos as int, current_pos as int));
        s
    } else if current_pos > original_pos {
        let mut s = str_to_string(" ↓");
        push_decimal(&mut s, (current_pos - original_pos) as u64);
        assert(s@ =~= position_change(original_pos as int, current_pos as int));
        s
    } else {
        String::new()
    }
}

/// A field of a rich message.
#[derive(Clone, Debug)]
pub struct EmbedField {
    pub name: String,
    pub value: String,
    pub inline: bool,
}

/// A rich message (a Discord embed) as plain values.
#[derive(Clone, Debug)]
pub struct Embed {
    pub title: Option<String>,
    pub url: Option<String>,
    pub description: Option<String>,
    pub color: Option<u32>,
    pub fields: Vec<EmbedField>,
    pub footer: Option<String>,
}

/// A rich message by its texts.
pub struct EmbedView {
    pub title: Option<Seq<char>>,
    pub url: Option<Seq<char>>,
    pub description: Option<Seq<char>>,
    pub color: Option<u32>,
    pub fields: Seq<(Seq<char>, Seq<char>, bool)>,
    pub footer: Option<Seq<char>>,
}

/// A field by its texts.
pub open spec fn field_view(f: EmbedField) -> (Seq<char>, Seq<char>, bool) {
    (f.name@, f.value@, f.inline)
}

impl View for Embed {
    type V = EmbedView;

    open spec fn view(&self) -> EmbedView {
        EmbedView {
            title: opt_chars(self.title),
            url: opt_chars(self.url),
            description: opt_chars(self.description),
            color: self.color,
            fields: self.fields@.map_values(|f: EmbedField| field_view(f)),
            footer: opt_chars(self.footer),
        }
    }
}

/// A rich message with a title and a color, and nothing else yet.
fn titled(title: String, color: u32) -> (e: Embed)
    ensures
        e@ == (EmbedView {
            title: Some(title@),
            url: None,
            description: None,
            color: Some(color),
            fields: Seq::empty(),
            footer: None,
        }),
{
    let e = Embed { title: Some(title), url: None, description: None, color: Some(color), fields: Vec::new(), footer: None };
    assert(e@.fields =~= Seq::<(Seq<char>, Seq<char>, bool)>::empty());
    e
}

impl Embed {
    /// Appends a field.
    pub fn add_field(&mut self, name: String, value: String, inline: bool)
        ensures
            final(self)@ == (EmbedView { fields: old(self)@.fields.push((name@, value@, inline)), ..old(self)@ }),
    {
        let ghost before = self.fields@;
        self.fields.push(EmbedField { name, value, inline });
        assert(self.fields@.map_values(|f: EmbedField| field_view(f)) =~= before.map_values(|f: EmbedField| field_view(f)).push((name@, value@, inline)));
    }
}

/// The countdown step as a rich message.
pub open spec fn countdown_embed(value: CountdownValue) -> EmbedView {
    let (text, color) = match value {
        CountdownValue::Three => ("3️⃣"@, 0xff0000u32),
        CountdownValue::Two => ("2️⃣"@, 0xff6600u32),
        CountdownValue::One => ("1️⃣"@, 0xffcc00u32),
        CountdownValue::Now => ("🎤 NOW!"@, 0x00ff00u32),
    };
    EmbedView { title: Some(text), url: None, description: None, color: Some(color), fields: Seq::empty(), footer: None }
}

/// The countdown step as a rich message.
pub fn create_countdown_embed(value: &CountdownValue) -> (e: Embed)
    ensures
        e@ == countdown_embed(*value),
{
    match value {
        CountdownValue::Three => titled(str_to_string("3️⃣"), 0xff0000),
        CountdownValue::Two => titled(str_to_string("2️⃣"), 0xff6600),
        CountdownValue::One => titled(str_to_string("1️⃣"), 0xffcc00),
        CountdownValue::Now => titled(str_to_string("🎤 NOW!"), 0x00ff00),
    }
}

/// The help as a rich message.
pub open spec fn help_embed(songbook_url: Seq<char>) -> EmbedView {
    EmbedView {
        title: Some("ℹ️ Bot Commands"@),
        url: None,
        description: Some("Welcome to the sitzning bot! Here are the available commands:"@),
        color: Some(0x5865f2u32),
        fields: seq![
            ("🎵 Music"@, "`/play <url>` - Queue a YouTube video\n`/queue` - Show current queue\n`/remove` - Remove your last queued song"@, false),
            ("🎤 Singing"@, "`/request <url>` - Request a song to sing\n`/songs` - List song requests\n`/tempo` - Vote for next song\n`/bingo` - Signal you found the song\n`/skal` - Song finished!"@, false),
            ("💬 Other"@, "`/speak <text>` - Text-to-speech\n`/help` - Show this message"@, false),
            ("💡 Tip"@, "You can also react to bingo announcements instead of typing `/bingo`!"@, false),
        ],
        footer: Some("Songbook: "@ + songbook_url),
    }
}

/// The help as a rich message.
pub fn create_help_embed(songbook_url: &str) -> (e: Embed)
    ensures
        e@ == help_embed(songbook_url@),
{
    let mut e = titled(str_to_string("ℹ️ Bot Commands"), 0x5865f2);
    e.description = Some(str_to_string("Welcome to the sitzning bot! Here are the available commands:"));
    e.add_field(str_to_string("🎵 Music"), str_to_string("`/play <url>` - Queue a YouTube video\n`/queue` - Show current queue\n`/remove` - Remove your last queued song"), false);
    e.add_field(str_to_string("🎤 Singing"), str_to_string("`/request <url>` - Request a song to sing\n`/songs` - List song requests\n`/tempo` - Vote for next song\n`/bingo` - Signal you found the song\n`/skal` - Song finished!"), false);
    e.add_field(str_to_string("💬 Other"), str_to_string("`/speak <text>` - Text-to-speech\n`/help` - Show this message"), false);
    e.add_field(str_to_string("💡 Tip"), str_to_string("You can also react to bingo announcements instead of typing `/bingo`!"), false);
    let mut footer = str_to_string("Songbook: ");
    push_str(&mut footer, songbook_url);
    e.footer = Some(footer);
    assert(e@.fields =~= help_embed(songbook_url@).fields);
    e
}

/// The next song announcement as a rich message.
pub open spec fn bingo_embed(song: SongbookSong) -> EmbedView {
    let base = seq![
        ("📖 Instructions"@, "React to this message or type `/bingo` when you've found the song!"@, false),
    ];
    let with_url = match song.url {
        Some(u) => base.push(("🔗 Link"@, u@, false)),
        None => base,
    };
    let fields = match song.book {
        Some(b) => with_url.push(("📚 Songbook"@, b@, true)),
        None => with_url,
    };
    EmbedView {
        title: Some("🎯 Next Song Coming Up!"@),
        url: None,
        description: Some("**"@ + title_or_id(song) + "**"@),
        color: Some(0xff6600u32),
        fields,
        footer: None,
    }
}

/// The next song announcement as a rich message.
pub fn create_bingo_embed(song: &SongbookSong) -> (e: Embed)
    ensures
        e@ == bingo_embed(*song),
{
    let mut e = titled(str_to_string("🎯 Next Song Coming Up!"), 0xff6600);
    let mut d = str_to_string("**");
    let t = song.title_or_id();
    push_str(&mut d, t.as_str());
    push_str(&mut d, "**");
    e.description = Some(d);
    e.add_field(str_to_string("📖 Instructions"), str_to_string("React to this message or type `/bingo` when you've found the song!"), false);
    match &song.url {
        Some(u) => e.add_field(str_to_string("🔗 Link"), u.clone(), false),
        None => {},
    }
    match &song.book {
        Some(b) => e.add_field(str_to_string("📚 Songbook"), b.clone(), true),
        None => {},
    }
    assert(e@.description == Some("**"@ + title_or_id(*song) + "**"@));
    assert(e@.fields =~= bingo_embed(*song).fields);
    e
}

/// The confirmation of an enqueued song as a rich message.
pub open spec fn enqueue_embed(song: Song, mins: u64) -> EmbedView {
    EmbedView {
        title: Some("✅ "@ + song.title@),
        url: Some(song.url@),
        description: Some("Added to queue • React 👍/👎 to move up/down"@),
        color: Some(0x00ff00u32),
        fields: seq![
            ("📺 Channel"@, song.channel@, true),
            ("👤 Queued by"@, song.queued_by@, true),
            ("⏱️ Time until playback"@, decimal(mins as nat) + " min"@, true),
        ],
        footer: None,
    }
}

/// The confirmation of an enqueued song as a rich message.
pub fn create_enqueue_embed(song: &Song, time_until_playback_mins: u64) -> (e: Embed)
    ensures
        e@ == enqueue_embed(*song, time_until_playback_mins),
{
    let mut title = str_to_string("✅ ");
    push_str(&mut title, song.title.as_str());
    let mut e = titled(title, 0x00ff00);
    e.url = Some(song.url.clone());
    e.description = Some(str_to_string("Added to queue • React 👍/👎 to move up/down"));
    e.add_field(str_to_string("📺 Channel"), song.channel.clone(), true);
    e.add_field(str_to_string("👤 Queued by"), song.queued_by.clone(), true);
    let mut t = String::new();
    push_decimal(&mut t, time_until_playback_mins);
    push_str(&mut t, " min");
    e.add_field(str_to_string("⏱️ Time until playback"), t, true);
    assert(e@.fields =~= enqueue_embed(*song, time_until_playback_mins).fields);
    assert(e@.title == Some("✅ "@ + song.title@));
    e
}

/// How many requests the song list shows at most.
pub const SONG_LIST_LIMIT: usize = 25;

/// A line of the song list: its number, the title (or id), and who asked.
pub open spec fn song_list_line(i: int, song: SongbookSong) -> Seq<char> {
    decimal((i + 1) as nat) + ". "@ + title_or_id(song) + match song.queued_by {
        Some(q) => " (by "@ + q@ + ")"@,
        None => Seq::empty(),
    }
}

/// The lines of the first `n` songs, joined with newlines.
pub open spec fn song_list_text(songs: Seq<SongbookSong>, n: int) -> Seq<char>
    decreases n,
{
    if n <= 0 {
        Seq::empty()
    } else if n == 1 {
        song_list_line(0, songs[0])
    } else {
        song_list_text(songs, n - 1) + "\n"@ + song_list_line(n - 1, songs[n - 1])
    }
}

/// The song requests as a rich message.
pub open spec fn song_list_embed(songs: Seq<SongbookSong>) -> EmbedView {
    EmbedView {
        title: Some("📜 Song Requests"@),
        url: None,
        description: Some(if songs.len() == 0 {
            "No songs requested yet! Use `/request` to add one."@
        } else {
            song_list_text(songs, if songs.len() < SONG_LIST_LIMIT { songs.len() as int } else { SONG_LIST_LIMIT as int })
        }),
        color: Some(0x0099ffu32),
        fields: Seq::empty(),
        footer: if songs.len() > SONG_LIST_LIMIT {
            Some("... and "@ + decimal((songs.len() - SONG_LIST_LIMIT) as nat) + " more songs"@)
        } else {
            None
        },
    }
}

/// The song requests as a rich message.
pub fn create_song_list_embed(songs: &Vec<SongbookSong>) -> (e: Embed)
    ensures
        e@ == song_list_embed(songs@),
{
    let mut e = titled(str_to_string("📜 Song Requests"), 0x0099ff);
    if songs.len() == 0 {
        e.description = Some(str_to_string("No songs requested yet! Use `/request` to add one."));
        return e;
    }
    let n = if songs.len() < SONG_LIST_LIMIT { songs.len() } else { SONG_LIST_LIMIT };
    let mut d = String::new();
    let mut i: usize = 0;
    while i < n
        invariant
            i <= n,
            n <= songs@.len(),
            d@ == song_list_text(songs@, i as int),
        decreases n - i,
    {
        if i > 0 {
            push_str(&mut d, "\n");
        }
        push_decimal(&mut d, (i + 1) as u64);
        push_str(&mut d, ". ");
        let t = songs[i].title_or_id();
        push_str(&mut d, t.as_str());
        match &songs[i].queued_by {
            Some(q) => {
                push_str(&mut d, " (by ");
                push_str(&mut d, q.as_str());
                push_str(&mut d, ")");
            },
            None => {},
        }
        proof {
            if i == 0 {
                assert(d@ =~= song_list_line(0, songs@[0]));
            } else {
                assert(d@ =~= song_list_text(songs@, i as int) + "\n"@ + song_list_line(i as int, songs@[i as int]));
            }
        }
        i = i + 1;
    }
    e.description = Some(d);
    if songs.len() > SONG_LIST_LIMIT {
        let mut f = str_to_string("... and ");
        push_decimal(&mut f, (songs.len() - SONG_LIST_LIMIT) as u64);
        push_str(&mut f, " more songs");
        assert(f@ =~= "... and "@ + decimal((songs@.len() - SONG_LIST_LIMIT) as nat) + " more songs"@);
        e.footer = Some(f);
    }
    e
}

/// A removed song as a rich message.
pub open spec fn removed_embed(title: Seq<char>) -> EmbedView {
    EmbedView {
        title: Some("🗑️ Song Removed"@),
        url: None,
        description: Some("Removed **"@ + title + "** from the queue"@),
        color: Some(0xff6600u32),
        fields: Seq::empty(),
        footer: None,
    }
}

/// A removed song as a rich message.
pub fn create_removed_embed(title: &String) -> (e: Embed)
    ensures
        e@ == removed_embed(title@),
{
    let mut e = titled(str_to_string("🗑️ Song Removed"), 0xff6600);
    let mut d = str_to_string("Removed **");
    push_str(&mut d, title.as_str());
    push_str(&mut d, "** from the queue");
    assert(d@ =~= "Removed **"@ + title@ + "** from the queue"@);
    e.description = Some(d);
    e
}

/// An added request as a rich message.
pub open spec fn request_added_embed(song: SongbookSong) -> EmbedView {
    let with_book = match song.book {
        Some(b) => seq![("📚 Songbook"@, b@, true)],
        None => Seq::empty(),
    };
    let fields = match song.url {
        Some(u) => with_book.push(("🔗 Link"@, u@, false)),
        None => with_book,
    };
    EmbedView {
        title: Some("🎤 Song Request Added"@),
        url: None,
        description: Some("Added **"@ + title_or_id(song) + "** to requests"@),
        color: Some(0x00ff00u32),
        fields,
        footer: None,
    }
}

/// An added request as a rich message.
pub fn create_request_added_embed(song: &SongbookSong) -> (e: Embed)
    ensures
        e@ == request_added_embed(*song),
{
    let mut e = titled(str_to_string("🎤 Song Request Added"), 0x00ff00);
    let mut d = str_to_string("Added **");
    let t = song.title_or_id();
    push_str(&mut d, t.as_str());
    push_str(&mut d, "** to requests");
    assert(d@ =~= "Added **"@ + title_or_id(*song) + "** to requests"@);
    e.description = Some(d);
    match &song.book {
        Some(b) => e.add_field(str_to_string("📚 Songbook"), b.clone(), true),
        None => {},
    }
    match &song.url {
        Some(u) => e.add_field(str_to_string("🔗 Link"), u.clone(), false),
        None => {},
    }
    assert(e@.fields =~= request_added_embed(*song).fields);
    e
}

/// An error as a rich message.
pub open spec fn error_embed(message: Seq<char>) -> EmbedView {
    EmbedView {
        title: Some("❌ Error"@),
        url: None,
        description: Some(message),
        color: Some(0xff0000u32),
        fields: Seq::empty(),
        footer: None,
    }
}

/// An error as a rich message.
pub fn create_error_embed(message: &String) -> (e: Embed)
    ensures
        e@ == error_embed(message@),
{
    let mut e = titled(str_to_string("❌ Error"), 0xff0000);
    e.description = Some(message.clone());
    e
}

/// A text repeated `n` times.
pub open spec fn repeat(s: Seq<char>, n: nat) -> Seq<char>
    decreases n,
{
    if n == 0 {
        Seq::empty()
    } else {
        repeat(s, (n - 1) as nat) + s
    }
}

/// Appends a text `n` times.
fn push_repeated(s: &mut String, t: &str, n: usize)
    ensures
        final(s)@ == old(s)@ + repeat(t@, n as nat),
{
    let mut i: usize = 0;
    while i < n
        invariant
            i <= n,
            s@ == old(s)@ + repeat(t@, i as nat),
        decreases n - i,
    {
        push_str(s, t);
        i = i + 1;
        assert(s@ =~= old(s)@ + repeat(t@, i as nat));
    }
}

/// The progress bar: twenty segments, one filled per five percent.
pub open spec fn progress_bar(percent: nat) -> Seq<char> {
    let filled = if percent / 5 < 20 {
        percent / 5
    } else {
        20
    };
    repeat("▓"@, filled) + repeat("░"@, (20 - filled) as nat)
}

/// `m:ss / m:ss` for the progress and the duration of a song.
pub open spec fn progress_text(progress: u64, duration: u64) -> Seq<char> {
    decimal((progress / 60) as nat) + ":"@ + two_digits((progress % 60) as nat) + " / "@ + decimal(
        (duration / 60) as nat,
    ) + ":"@ + two_digits((duration % 60) as nat)
}

/// The vote marker for a net score.
pub open spec fn score_marker(score: int) -> Seq<char> {
    if score > 0 {
        " 👍+"@ + decimal(score as nat)
    } else if score < 0 {
        " 👎"@ + signed_decimal(score)
    } else {
        Seq::empty()
    }
}

/// A line of the upcoming songs: shown at `shown` (0 being the first after
/// the current song), queued at `queued`.
pub open spec fn upcoming_line(shown: int, queued: int, song: Song, votes: Map<Seq<char>, VotesView>) -> Seq<char> {
    decimal((shown + 2) as nat) + ". ["@ + song.title@ + "]("@ + song.url@ + ")"@ + score_marker(
        score_in(votes, song.id@),
    ) + position_change(queued, shown) + " - "@ + song.queued_by@
}

/// The lines of the first `n` upcoming songs in vote order, joined with
/// newlines.
pub open spec fn upcoming_text(
    songs: Seq<Song>,
    order: Seq<usize>,
    votes: Map<Seq<char>, VotesView>,
    n: int,
) -> Seq<char>
    decreases n,
{
    if n <= 0 {
        Seq::empty()
    } else if n == 1 {
        upcoming_line(0, order[0] as int, songs[order[0] as int], votes)
    } else {
        upcoming_text(songs, order, votes, n - 1) + "\n"@ + upcoming_line(
            n - 1,
            order[n - 1] as int,
            songs[order[n - 1] as int],
            votes,
        )
    }
}

/// The queue status as a rich message: the current song with its progress
/// (`percent` of it played) or an empty queue, the upcoming songs in vote
/// order (`order`) with their vote and position markers, and the queue's
/// length and duration.
pub open spec fn queue_embed(
    now_playing: Option<NowPlayingInfo>,
    upcoming: Seq<Song>,
    order: Seq<usize>,
    votes: Map<Seq<char>, VotesView>,
    queue_length: usize,
    queue_duration_mins: u64,
    is_playing: bool,
    percent: usize,
) -> EmbedView {
    let status = if is_playing {
        "▶️"@
    } else {
        "⏸️"@
    };
    let base = match now_playing {
        Some(np) => EmbedView {
            title: Some(status + " Now playing: "@ + np.song.title@),
            url: Some(np.song.url@),
            description: None,
            color: Some(
                if is_playing {
                    0x00ff00u32
                } else {
                    0xffaa00u32
                },
            ),
            fields: seq![
                ("👤 Queued by"@, np.song.queued_by@, true),
                ("📺 Channel"@, np.song.channel@, true),
                ("Progress"@, progress_bar(percent as nat) + "\n"@ + progress_text(np.progress_secs, np.song.duration), false),
            ],
            footer: None,
        },
        None => EmbedView {
            title: Some(status + " No song playing"@),
            url: None,
            description: Some("Queue is empty!"@),
            color: Some(0x808080u32),
            fields: Seq::empty(),
            footer: None,
        },
    };
    EmbedView {
        fields: if upcoming.len() > 0 {
            base.fields.push(("📋 Up next"@, upcoming_text(upcoming, order, votes, upcoming.len() as int), false))
        } else {
            base.fields
        },
        footer: Some(
            "Queue: "@ + decimal(queue_length as nat) + " songs ("@ + decimal(queue_duration_mins as nat)
                + " min) • React ⏭️ to vote skip"@,
        ),
        ..base
    }
}

/// The vote marker for the song with the given id.
fn score_marker_for(votes: &VoteTable, id: &String) -> (s: String)
    ensures
        s@ == score_marker(score_in(votes@, id@)),
{
    let (up, down) = votes.counts(id);
    if up > down {
        let mut s = str_to_string(" 👍+");
        push_decimal(&mut s, (up - down) as u64);
        assert(s@ =~= score_marker(score_in(votes@, id@)));
        s
    } else if up < down {
        let mut s = str_to_string(" 👎");
        push_str(&mut s, "-");
        push_decimal(&mut s, (down - up) as u64);
        assert(s@ =~= score_marker(score_in(votes@, id@)));
        s
    } else {
        String::new()
    }
}

/// The queue status as a rich message, with the upcoming songs in vote order
/// and their vote markers. `progress_percent` is the share of the current
/// song played, in whole percent (computed by the application).
#[verifier::spinoff_prover]
#[verifier::rlimit(40)]
pub fn create_queue_embed_with_votes(
    now_playing: Option<&NowPlayingInfo>,
    upcoming_songs: &Vec<Song>,
    song_votes: &VoteTable,
    queue_length: usize,
    queue_duration_mins: u64,
    is_playing: bool,
    progress_percent: usize,
) -> (e: Embed)
    requires
        upcoming_songs@.len() < usize::MAX,
    ensures
        exists|order: Seq<usize>|
            in_vote_order(order, upcoming_songs@, song_votes@, 0, upcoming_songs@.len() as int) && e@
                == queue_embed(
                match now_playing {
                    Some(np) => Some(*np),
                    None => None,
                },
                upcoming_songs@,
                order,
                song_votes@,
                queue_length,
                queue_duration_mins,
                is_playing,
                progress_percent,
            ),
{
    let status = if is_playing {
        "▶️"
    } else {
        "⏸️"
    };
    let mut e = match now_playing {
        Some(np) => {
            let song = &np.song;
            let mut title = str_to_string(status);
            push_str(&mut title, " Now playing: ");
            push_str(&mut title, song.title.as_str());
            let mut e = titled(title, if is_playing { 0x00ff00 } else { 0xffaa00 });
            e.url = Some(song.url.clone());
            e.add_field(str_to_string("👤 Queued by"), song.queued_by.clone(), true);
            e.add_field(str_to_string("📺 Channel"), song.channel.clone(), true);
            let filled = if progress_percent / 5 < 20 {
                progress_percent / 5
            } else {
                20
            };
            let mut p = String::new();
            push_repeated(&mut p, "▓", filled);
            push_repeated(&mut p, "░", 20 - filled);
            push_str(&mut p, "\n");
            push_decimal(&mut p, np.progress_secs / 60);
            push_str(&mut p, ":");
            push_two_digits(&mut p, np.progress_secs % 60);
            push_str(&mut p, " / ");
            push_decimal(&mut p, song.duration / 60);
            push_str(&mut p, ":");
            push_two_digits(&mut p, song.duration % 60);
            assert(p@ =~= progress_bar(progress_percent as nat) + "\n"@ + progress_text(np.progress_secs, song.duration));
            e.add_field(str_to_string("Progress"), p, false);
            assert(e@.title == Some(status@ + " Now playing: "@ + song.title@));
            e
        },
        None => {
            let mut title = str_to_string(status);
            push_str(&mut title, " No song playing");
            let mut e = titled(title, 0x808080);
            e.description = Some(str_to_string("Queue is empty!"));
            e
        },
    };
    let ghost base = e@;
    let order = vote_order_from(upcoming_songs, song_votes, 0);
    proof {
        crate::playback_model::lemma_listed_len(order@, upcoming_songs@, song_votes@, 0, upcoming_songs@.len() as int);
    }
    if upcoming_songs.len() > 0 {
        let mut text = String::new();
        let n = upcoming_songs.len();
        let mut k: usize = 0;
        while k < n
            invariant
                k <= n,
                n == upcoming_songs@.len(),
                n < usize::MAX,
                order@.len() == n,
                in_vote_order(order@, upcoming_songs@, song_votes@, 0, n as int),
                text@ == upcoming_text(upcoming_songs@, order@, song_votes@, k as int),
            decreases n - k,
        {
            if k > 0 {
                push_str(&mut text, "\n");
            }
            let pos = order[k];
            let song = &upcoming_songs[pos];
            push_decimal(&mut text, (k + 2) as u64);
            push_str(&mut text, ". [");
            push_str(&mut text, song.title.as_str());
            push_str(&mut text, "](");
            push_str(&mut text, song.url.as_str());
            push_str(&mut text, ")");
            let marker = score_marker_for(song_votes, &song.id);
            push_str(&mut text, marker.as_str());
            let change = format_position_change(pos, k);
            push_str(&mut text, change.as_str());
            push_str(&mut text, " - ");
            push_str(&mut text, song.queued_by.as_str());
            proof {
                let line = upcoming_line(k as int, pos as int, upcoming_songs@[pos as int], song_votes@);
                if k == 0 {
                    assert(text@ =~= line);
                } else {
                    assert(text@ =~= upcoming_text(upcoming_songs@, order@, song_votes@, k as int) + "\n"@ + line);
                }
            }
            k = k + 1;
        }
        e.add_field(str_to_string("📋 Up next"), text, false);
    }
    let mut footer = str_to_string("Queue: ");
    push_decimal(&mut footer, queue_length as u64);
    push_str(&mut footer, " songs (");
    push_decimal(&mut footer, queue_duration_mins);
    push_str(&mut footer, " min) • React ⏭️ to vote skip");
    e.footer = Some(footer);
    let ghost np = match now_playing {
        Some(np) => Some(*np),
        None => None,
    };
    proof {
        let want = queue_embed(np, upcoming_songs@, order@, song_votes@, queue_length, queue_duration_mins, is_playing, progress_percent);
        assert(e@.fields =~= want.fields);
        assert(e@.footer =~= want.footer);
    }
    e
}

/// The queue status as a rich message, with upcoming songs and no votes.
pub fn create_queue_embed_extended(
    now_playing: Option<&NowPlayingInfo>,
    upcoming_songs: &Vec<Song>,
    queue_length: usize,
    queue_duration_mins: u64,
    is_playing: bool,
    progress_percent: usize,
) -> (e: Embed)
    requires
        upcoming_songs@.len() < usize::MAX,
    ensures
        exists|order: Seq<usize>|
            in_vote_order(order, upcoming_songs@, Map::empty(), 0, upcoming_songs@.len() as int) && e@
                == queue_embed(
                match now_playing {
                    Some(np) => Some(*np),
                    None => None,
                },
                upcoming_songs@,
                order,
                Map::empty(),
                queue_length,
                queue_duration_mins,
                is_playing,
                progress_percent,
            ),
{
    let votes = VoteTable::new();
    create_queue_embed_with_votes(now_playing, upcoming_songs, &votes, queue_length, queue_duration_mins, is_playing, progress_percent)
}

/// The queue status as a rich message, without the upcoming songs.
pub fn create_queue_embed(
    now_playing: Option<&NowPlayingInfo>,
    queue_length: usize,
    queue_duration_mins: u64,
    is_playing: bool,
    progress_percent: usize,
) -> (e: Embed)
    ensures
        e@ == queue_embed(
            match now_playing {
                Some(np) => Some(*np),
                None => None,
            },
            Seq::empty(),
            Seq::empty(),
            Map::empty(),
            queue_length,
            queue_duration_mins,
            is_playing,
            progress_percent,
        ),
{
    let upcoming: Vec<Song> = Vec::new();
    let e = create_queue_embed_extended(now_playing, &upcoming, queue_length, queue_duration_mins, is_playing, progress_percent);
    proof {
        let order = choose|order: Seq<usize>| in_vote_order(order, upcoming@, Map::empty(), 0, 0) && e@ == queue_embed(
            match now_playing {
                Some(np) => Some(*np),
                None => None,
            },
            upcoming@,
            order,
            Map::empty(),
            queue_length,
            queue_duration_mins,
            is_playing,
            progress_percent,
        );
    }
    e
}

/// What to post on Discord.
#[derive(Clone, Debug)]
pub enum DiscordPost {
    Embed(Embed),
    Text(String),
}

/// The text holds nothing but white space.
pub open spec fn blank(s: Seq<char>) -> bool {
    forall|i: int| 0 <= i < s.len() ==> is_space(#[trigger] s[i])
}

/// Whether a text holds nothing but white space.
pub fn is_blank(s: &String) -> (b: bool)
    ensures
        b == blank(s@),
{
    let t = s.as_str();
    let n = t.unicode_len();
    let mut i: usize = 0;
    while i < n
        invariant
            n == s@.len(),
            t@ == s@,
            i <= n,
            forall|k: int| 0 <= k < i ==> is_space(#[trigger] s@[k]),
        decreases n - i,
    {
        if !char_is_space(t.get_char(i)) {
            assert(!is_space(s@[i as int]));
            return false;
        }
        i = i + 1;
    }
    true
}

/// `p` is an embed with the given contents.
pub open spec fn posts_embed(p: Option<DiscordPost>, v: EmbedView) -> bool {
    p matches Some(DiscordPost::Embed(e)) && e@ == v
}

/// `p` is a plain text.
pub open spec fn posts_text(p: Option<DiscordPost>, t: Seq<char>) -> bool {
    p matches Some(DiscordPost::Text(x)) && x@ == t
}

/// What Discord shows of a message from the bot or another platform: rich
/// content as its embed, plain text as it is, and nothing for messages that
/// came from Discord or hold only white space. A queue status lists
/// `upcoming` (the songs after the current one) by `votes`, and `percent`
/// of the current song played.
pub open spec fn post_for(
    p: Option<DiscordPost>,
    action: MessageAction,
    upcoming: Seq<Song>,
    votes: Map<Seq<char>, VotesView>,
    percent: usize,
) -> bool {
    match action {
        MessageAction::Send { text, rich, source } => if source == Platform::Discord {
            p is None
        } else {
            match rich {
                Some(RichContent::QueueStatus { now_playing, queue_length, queue_duration_mins, is_playing, .. }) =>
                    exists|order: Seq<usize>| in_vote_order(order, upcoming, votes, 0, upcoming.len() as int) && posts_embed(
                        p,
                        queue_embed(now_playing, upcoming, order, votes, queue_length, queue_duration_mins, is_playing, percent),
                    ),
                Some(RichContent::SongEnqueued { song, time_until_playback_mins }) => posts_embed(
                    p,
                    enqueue_embed(song, time_until_playback_mins),
                ),
                Some(RichContent::BingoAnnouncement { song }) => posts_embed(p, bingo_embed(song)),
                Some(RichContent::SongRequestList { songs }) => posts_embed(p, song_list_embed(songs@)),
                Some(RichContent::Help { songbook_url }) => posts_embed(p, help_embed(songbook_url@)),
                Some(RichContent::Countdown { value }) => posts_embed(p, countdown_embed(value)),
                Some(RichContent::SongRemoved { title }) => posts_embed(p, removed_embed(title@)),
                Some(RichContent::SongRequestAdded { song }) => posts_embed(p, request_added_embed(song)),
                Some(RichContent::Error { message }) => if blank(message@) {
                    p is None
                } else {
                    posts_embed(p, error_embed(message@))
                },
                None => if blank(text@) {
                    p is None
                } else {
                    posts_text(p, text@)
                },
            }
        },
        MessageAction::Mirror { username, text, source } => if source == Platform::Discord || blank(
            text@,
        ) {
            p is None
        } else {
            posts_text(
                p,
                "**["@ + (if source == Platform::Irc {
                    "IRC"@
                } else {
                    "Bot"@
                }) + "] "@ + username@ + ":** "@ + text@,
            )
        },
        MessageAction::StoreBingoMessageId { .. } => p is None,
    }
}

/// What to post on Discord for a message.
pub fn message_post(action: &MessageAction, upcoming: &Vec<Song>, votes: &VoteTable, progress_percent: usize) -> (p: Option<DiscordPost>)
    requires
        upcoming@.len() < usize::MAX,
    ensures
        post_for(p, *action, upcoming@, votes@, progress_percent),
{
    match action {
        MessageAction::Send { text, rich, source } => {
            if let Platform::Discord = source {
                return None;
            }
            match rich {
                Some(RichContent::QueueStatus { now_playing, queue_length, queue_duration_mins, is_playing, .. }) => {
                    let np = match now_playing {
                        Some(np) => Some(np),
                        None => None,
                    };
                    Some(DiscordPost::Embed(create_queue_embed_with_votes(np, upcoming, votes, *queue_length, *queue_duration_mins, *is_playing, progress_percent)))
                },
                Some(RichContent::SongEnqueued { song, time_until_playback_mins }) => Some(DiscordPost::Embed(create_enqueue_embed(song, *time_until_playback_mins))),
                Some(RichContent::BingoAnnouncement { song }) => Some(DiscordPost::Embed(create_bingo_embed(song))),
                Some(RichContent::SongRequestList { songs }) => Some(DiscordPost::Embed(create_song_list_embed(songs))),
                Some(RichContent::Help { songbook_url }) => Some(DiscordPost::Embed(create_help_embed(songbook_url.as_str()))),
                Some(RichContent::Countdown { value }) => Some(DiscordPost::Embed(create_countdown_embed(value))),
                Some(RichContent::SongRemoved { title }) => Some(DiscordPost::Embed(create_removed_embed(title))),
                Some(RichContent::SongRequestAdded { song }) => Some(DiscordPost::Embed(create_request_added_embed(song))),
                Some(RichContent::Error { message }) => {
                    if is_blank(message) {
                        None
                    } else {
                        Some(DiscordPost::Embed(create_error_embed(message)))
                    }
                },
                None => {
                    if is_blank(text) {
                        None
                    } else {
                        Some(DiscordPost::Text(text.clone()))
                    }
                },
            }
        },
        MessageAction::Mirror { username, text, source } => {
            let name = match source {
                Platform::Discord => return None,
                Platform::Irc => "IRC",
                Platform::Bot => "Bot",
            };
            if is_blank(text) {
                return None;
            }
            let mut content = str_to_string("**[");
            push_str(&mut content, name);
            push_str(&mut content, "] ");
            push_str(&mut content, username.as_str());
            push_str(&mut content, ":** ");
            push_str(&mut content, text.as_str());
            Some(DiscordPost::Text(content))
        },
        MessageAction::StoreBingoMessageId { .. } => None,
    }
}

/// The songs shown as upcoming: up to nine after the current one.
pub fn shown_upcoming(queued: &Vec<Song>) -> (r: Vec<Song>)
    ensures
        r@ == (if queued@.len() <= 1 {
            Seq::<Song>::empty()
        } else if queued@.len() <= 10 {
            queued@.subrange(1, queued@.len() as int)
        } else {
            queued@.subrange(1, 10)
        }),
{
    let mut r: Vec<Song> = Vec::new();
    let mut i: usize = 1;
    while i < queued.len() && i < 10
        invariant
            1 <= i,
            i <= 10,
            queued@.len() > 0 ==> i <= queued@.len(),
            r@ =~= (if queued@.len() == 0 { Seq::<Song>::empty() } else { queued@.subrange(1, i as int) }),
        decreases 10 - i,
    {
        r.push(queued[i].clone());
        i = i + 1;
    }
    r
}

/// Skip votes needed to skip the current song.
pub const SKIP_VOTES_REQUIRED: usize = 3;

/// The song whose enqueue message has the given id: the first entry for it.
pub open spec fn song_of_enqueue_message(entries: Seq<(String, u64)>, message_id: u64) -> Option<Seq<char>>
    decreases entries.len(),
{
    if entries.len() == 0 {
        None
    } else {
        match song_of_enqueue_message(entries.drop_last(), message_id) {
            Some(id) => Some(id),
            None => if entries.last().1 == message_id {
                Some(entries.last().0@)
            } else {
                None
            },
        }
    }
}

/// The song that a queue message shows: the first entry for it.
pub open spec fn song_of_queue_message(entries: Seq<(u64, String)>, message_id: u64) -> Option<Seq<char>>
    decreases entries.len(),
{
    if entries.len() == 0 {
        None
    } else {
        match song_of_queue_message(entries.drop_last(), message_id) {
            Some(id) => Some(id),
            None => if entries.last().0 == message_id {
                Some(entries.last().1@)
            } else {
                None
            },
        }
    }
}

/// What the Discord side remembers about the messages it posted.
pub struct DiscordState {
    /// The current bingo announcement, whose reactions count as bingo.
    pub bingo_message_id: Option<u64>,
    /// The latest queue status message, updated with the progress.
    pub now_playing_message_id: Option<u64>,
    /// The song being played, to notice when it changes.
    pub current_song_id: Option<String>,
    /// Who voted to skip the current song, each once.
    pub skip_votes: Vec<String>,
    /// Enqueue messages by song id, for vote reactions.
    pub enqueue_message_ids: Vec<(String, u64)>,
    /// The song each queue status message shows, for skip reactions.
    pub queue_message_song_ids: Vec<(u64, String)>,
}

/// The state and events after a reaction by `nick` to a message (see
/// [DiscordState::on_reaction_add]).
pub open spec fn reaction_add_outcome(
    old: DiscordState,
    new: DiscordState,
    events: Seq<Event>,
    message_id: u64,
    emoji: Seq<char>,
    nick: Seq<char>,
    is_bot: bool,
    playback_active: bool,
) -> bool {
    let bingo = old.bingo_message_id == Some(message_id);
    let k0: int = if bingo {
        1
    } else {
        0
    };
    let shown = song_of_queue_message(old.queue_message_song_ids@, message_id);
    let is_skip = emoji == "⏭️"@ && shown is Some && opt_chars(old.current_song_id) == shown;
    let voters = with_nick(names(old.skip_votes@), nick);
    let skipping = is_skip && voters.len() >= SKIP_VOTES_REQUIRED && playback_active;
    let k1: int = if skipping {
        k0 + 1
    } else {
        k0
    };
    let vote = song_of_enqueue_message(old.enqueue_message_ids@, message_id);
    &&& bingo ==> (events[0] matches Event::Songleader(SongleaderAction::Bingo { nick: n }) && n@ == nick)
    &&& new.bingo_message_id == old.bingo_message_id
    &&& new.now_playing_message_id == old.now_playing_message_id
    &&& new.current_song_id == old.current_song_id
    &&& new.enqueue_message_ids == old.enqueue_message_ids
    &&& new.queue_message_song_ids == old.queue_message_song_ids
    &&& if is_bot && (is_skip || vote is Some) {
        &&& events.len() == k0
        &&& new.skip_votes == old.skip_votes
    } else {
        &&& if is_skip {
            &&& names(new.skip_votes@) == if skipping {
                Seq::<Seq<char>>::empty()
            } else {
                voters
            }
            &&& skipping ==> events[k0] == Event::Playback(PlaybackAction::Next)
        } else {
            new.skip_votes == old.skip_votes
        }
        &&& match vote {
            Some(id) => if emoji == "👍"@ {
                &&& events.len() == k1 + 1
                &&& events[k1] matches Event::Playback(PlaybackAction::Upvote { song_id, user })
                &&& song_id@ == id
                &&& user@ == nick
            } else if emoji == "👎"@ {
                &&& events.len() == k1 + 1
                &&& events[k1] matches Event::Playback(PlaybackAction::Downvote { song_id, user })
                &&& song_id@ == id
                &&& user@ == nick
            } else {
                events.len() == k1
            },
            None => events.len() == k1,
        }
    }
}

impl DiscordState {
    /// Nothing posted yet.
    pub fn new() -> (s: Self)
        ensures
            s.bingo_message_id is None,
            s.now_playing_message_id is None,
            s.current_song_id is None,
            s.skip_votes@.len() == 0,
            s.enqueue_message_ids@.len() == 0,
            s.queue_message_song_ids@.len() == 0,
    {
        DiscordState {
            bingo_message_id: None,
            now_playing_message_id: None,
            current_song_id: None,
            skip_votes: Vec::new(),
            enqueue_message_ids: Vec::new(),
            queue_message_song_ids: Vec::new(),
        }
    }

    /// The song whose enqueue message has the given id.
    fn enqueued_song_of(&self, message_id: u64) -> (r: Option<String>)
        ensures
            opt_chars(r) == song_of_enqueue_message(self.enqueue_message_ids@, message_id),
    {
        let es = &self.enqueue_message_ids;
        let mut i: usize = 0;
        while i < es.len()
            invariant
                i <= es@.len(),
                es@ == self.enqueue_message_ids@,
                song_of_enqueue_message(es@.take(i as int), message_id) is None,
            decreases es.len() - i,
        {
            assert(es@.take(i + 1).drop_last() =~= es@.take(i as int));
            if es[i].1 == message_id {
                proof {
                    assert(es@.take(i + 1).last() == es@[i as int]);
                    lemma_enqueue_lookup_stable(es@, message_id, i + 1);
                }
                return Some(es[i].0.clone());
            }
            i = i + 1;
        }
        assert(es@.take(es@.len() as int) =~= es@);
        None
    }

    /// The song that a queue status message shows.
    fn queued_song_of(&self, message_id: u64) -> (r: Option<String>)
        ensures
            opt_chars(r) == song_of_queue_message(self.queue_message_song_ids@, message_id),
    {
        let es = &self.queue_message_song_ids;
        let mut i: usize = 0;
        while i < es.len()
            invariant
                i <= es@.len(),
                es@ == self.queue_message_song_ids@,
                song_of_queue_message(es@.take(i as int), message_id) is None,
            decreases es.len() - i,
        {
            assert(es@.take(i + 1).drop_last() =~= es@.take(i as int));
            if es[i].0 == message_id {
                proof {
                    assert(es@.take(i + 1).last() == es@[i as int]);
                    lemma_queue_lookup_stable(es@, message_id, i + 1);
                }
                return Some(es[i].1.clone());
            }
            i = i + 1;
        }
        assert(es@.take(es@.len() as int) =~= es@);
        None
    }

    /// A reaction added by `nick` (a bot when `is_bot`) to a message: a
    /// reaction to the bingo announcement counts as bingo; a skip reaction
    /// (⏭️) to a message showing the current song counts as a skip vote, and
    /// the third distinct vote skips the song when music is playing and
    /// wanted (`playback_active`); a 👍 or 👎 on an enqueue message votes for
    /// that song. Reactions of bots are not counted as skip votes or votes.
    pub fn on_reaction_add(&mut self, message_id: u64, emoji: &str, nick: String, is_bot: bool, playback_active: bool) -> (events: Vec<Event>)
        ensures
            reaction_add_outcome(*old(self), *final(self), events@, message_id, emoji@, nick@, is_bot, playback_active),
    {
        let ghost before = *self;
        let mut events: Vec<Event> = Vec::new();
        if self.bingo_message_id == Some(message_id) {
            events.push(Event::Songleader(SongleaderAction::Bingo { nick: nick.clone() }));
        }
        let shown = self.queued_song_of(message_id);
        let is_skip = str_to_string(emoji) == str_to_string("⏭️") && match (&shown, &self.current_song_id) {
            (Some(a), Some(b)) => *a == *b,
            _ => false,
        };
        let vote_song = self.enqueued_song_of(message_id);
        let ghost bingo_events = events@;
        if is_skip {
            if is_bot {
                return events;
            }
            let ghost voters_before = self.skip_votes@;
            if !crate::votes::has_name(&self.skip_votes, &nick) {
                self.skip_votes.push(nick.clone());
                assert(names(self.skip_votes@) =~= names(voters_before).push(nick@));
            }
            assert(names(self.skip_votes@) == with_nick(names(voters_before), nick@));
            if self.skip_votes.len() >= SKIP_VOTES_REQUIRED && playback_active {
                events.push(Event::Playback(PlaybackAction::Next));
                self.skip_votes = Vec::new();
                assert(names(self.skip_votes@) =~= Seq::<Seq<char>>::empty());
            }
        }
        let ghost after_skip = events@;
        match vote_song {
            Some(song_id) => {
                if is_bot {
                    return events;
                }
                if str_to_string(emoji) == str_to_string("👍") {
                    events.push(Event::Playback(PlaybackAction::Upvote { song_id, user: nick }));
                } else if str_to_string(emoji) == str_to_string("👎") {
                    events.push(Event::Playback(PlaybackAction::Downvote { song_id, user: nick }));
                }
            },
            None => {},
        }
        events
    }

    /// A reaction taken back by `nick` from a message: taking back a 👍 or
    /// 👎 on an enqueue message takes back that vote, unless `nick` is a bot.
    pub fn on_reaction_remove(&self, message_id: u64, emoji: &str, nick: String, is_bot: bool) -> (e: Option<Event>)
        ensures
            match song_of_enqueue_message(self.enqueue_message_ids@, message_id) {
                Some(id) => if is_bot {
                    e is None
                } else if emoji@ == "👍"@ {
                    e matches Some(Event::Playback(PlaybackAction::RemoveUpvote { song_id, user })) && song_id@ == id && user@ == nick@
                } else if emoji@ == "👎"@ {
                    e matches Some(Event::Playback(PlaybackAction::RemoveDownvote { song_id, user })) && song_id@ == id && user@ == nick@
                } else {
                    e is None
                },
                None => e is None,
            },
    {
        match self.enqueued_song_of(message_id) {
            Some(song_id) => {
                if is_bot {
                    None
                } else if str_to_string(emoji) == str_to_string("👍") {
                    Some(Event::Playback(PlaybackAction::RemoveUpvote { song_id, user: nick }))
                } else if str_to_string(emoji) == str_to_string("👎") {
                    Some(Event::Playback(PlaybackAction::RemoveDownvote { song_id, user: nick }))
                } else {
                    None
                }
            },
            None => None,
        }
    }

    /// An enqueue message was posted for a song.
    pub fn on_enqueue_posted(&mut self, song_id: String, message_id: u64)
        ensures
            final(self).enqueue_message_ids@ == without_song(old(self).enqueue_message_ids@, song_id@).push((song_id, message_id)),
            final(self).bingo_message_id == old(self).bingo_message_id,
            final(self).now_playing_message_id == old(self).now_playing_message_id,
            final(self).current_song_id == old(self).current_song_id,
            final(self).skip_votes == old(self).skip_votes,
            final(self).queue_message_song_ids == old(self).queue_message_song_ids,
    {
        self.forget_enqueue_message(&song_id);
        self.enqueue_message_ids.push((song_id, message_id));
    }

    fn forget_enqueue_message(&mut self, song_id: &String)
        ensures
            final(self).enqueue_message_ids@ == without_song(old(self).enqueue_message_ids@, song_id@),
            final(self).bingo_message_id == old(self).bingo_message_id,
            final(self).now_playing_message_id == old(self).now_playing_message_id,
            final(self).current_song_id == old(self).current_song_id,
            final(self).skip_votes == old(self).skip_votes,
            final(self).queue_message_song_ids == old(self).queue_message_song_ids,
    {
        let mut kept: Vec<(String, u64)> = Vec::new();
        let es = &self.enqueue_message_ids;
        let mut i: usize = 0;
        while i < es.len()
            invariant
                i <= es@.len(),
                kept@ == without_song(es@.take(i as int), song_id@),
            decreases es.len() - i,
        {
            assert(es@.take(i + 1).drop_last() =~= es@.take(i as int));
            if es[i].0 != *song_id {
                kept.push((es[i].0.clone(), es[i].1));
            }
            i = i + 1;
        }
        assert(es@.take(es@.len() as int) =~= es@);
        self.enqueue_message_ids = kept;
    }

    /// The message to refresh with the queue's progress: the now-playing
    /// message, while music plays; none otherwise.
    pub fn progress_message(&self, is_playing: bool) -> (m: Option<u64>)
        ensures
            m == (if is_playing {
                self.now_playing_message_id
            } else {
                None
            }),
    {
        if is_playing {
            self.now_playing_message_id
        } else {
            None
        }
    }

    /// Refreshing the now-playing message failed: when the message is gone
    /// (`not_found`) it is forgotten; otherwise nothing changes.
    pub fn on_progress_refresh_failed(&mut self, not_found: bool)
        ensures
            not_found ==> *final(self) == (DiscordState { now_playing_message_id: None, ..*old(self) }),
            !not_found ==> *final(self) == *old(self),
    {
        if not_found {
            self.now_playing_message_id = None;
        }
    }

    /// A bingo announcement was posted (or its id was handed over).
    pub fn on_bingo_posted(&mut self, message_id: u64)
        ensures
            final(self).bingo_message_id == Some(message_id),
            final(self).now_playing_message_id == old(self).now_playing_message_id,
            final(self).current_song_id == old(self).current_song_id,
            final(self).skip_votes == old(self).skip_votes,
            final(self).enqueue_message_ids == old(self).enqueue_message_ids,
            final(self).queue_message_song_ids == old(self).queue_message_song_ids,
    {
        self.bingo_message_id = Some(message_id);
    }

    /// A queue status message was posted, showing the song with id
    /// `song_id` (if any). When the song changed, the skip votes are
    /// dropped, messages of the old song stop counting for skips, and the
    /// new song's enqueue message stops counting for votes. Returns whether
    /// to add the skip reaction (a song is playing).
    pub fn on_queue_status_posted(&mut self, message_id: u64, song_id: Option<String>, is_playing: bool) -> (add_skip_reaction: bool)
        ensures
            add_skip_reaction == (is_playing && song_id is Some),
            final(self).now_playing_message_id == Some(message_id),
            final(self).bingo_message_id == old(self).bingo_message_id,
            opt_chars(final(self).current_song_id) == opt_chars(song_id),
            opt_chars(old(self).current_song_id) != opt_chars(song_id) ==> final(self).skip_votes@.len() == 0,
            opt_chars(old(self).current_song_id) == opt_chars(song_id) ==> final(self).skip_votes == old(self).skip_votes,
            final(self).queue_message_song_ids@ == (match song_id {
                Some(id) => without_message(
                    if opt_chars(old(self).current_song_id) != opt_chars(song_id) && old(self).current_song_id is Some {
                        without_shown(old(self).queue_message_song_ids@, old(self).current_song_id->0@)
                    } else {
                        old(self).queue_message_song_ids@
                    },
                    message_id,
                ).push((message_id, id)),
                None => if opt_chars(old(self).current_song_id) != opt_chars(song_id) && old(self).current_song_id is Some {
                    without_shown(old(self).queue_message_song_ids@, old(self).current_song_id->0@)
                } else {
                    old(self).queue_message_song_ids@
                },
            }),
            final(self).enqueue_message_ids@ == (match song_id {
                Some(id) => if opt_chars(old(self).current_song_id) != opt_chars(song_id) {
                    without_song(old(self).enqueue_message_ids@, id@)
                } else {
                    old(self).enqueue_message_ids@
                },
                None => old(self).enqueue_message_ids@,
            }),
    {
        let changed = !same_opt_string(&self.current_song_id, &song_id);
        if changed {
            self.skip_votes = Vec::new();
            match &self.current_song_id {
                Some(old_id) => {
                    let old_id = old_id.clone();
                    self.queue_message_song_ids = keep_other_songs(&self.queue_message_song_ids, &old_id);
                },
                None => {},
            }
            self.current_song_id = match &song_id {
                Some(id) => Some(id.clone()),
                None => None,
            };
            match &song_id {
                Some(id) => self.forget_enqueue_message(id),
                None => {},
            }
        }
        self.now_playing_message_id = Some(message_id);
        let add = is_playing && song_id.is_some();
        match song_id {
            Some(id) => {
                self.queue_message_song_ids = keep_other_messages(&self.queue_message_song_ids, message_id);
                self.queue_message_song_ids.push((message_id, id));
            },
            None => {},
        }
        add
    }
}

/// The entries of other songs.
pub open spec fn without_song(entries: Seq<(String, u64)>, song_id: Seq<char>) -> Seq<(String, u64)>
    decreases entries.len(),
{
    if entries.len() == 0 {
        entries
    } else if entries.last().0@ == song_id {
        without_song(entries.drop_last(), song_id)
    } else {
        without_song(entries.drop_last(), song_id).push(entries.last())
    }
}

/// The entries of messages that show other songs.
pub open spec fn without_shown(entries: Seq<(u64, String)>, song_id: Seq<char>) -> Seq<(u64, String)>
    decreases entries.len(),
{
    if entries.len() == 0 {
        entries
    } else if entries.last().1@ == song_id {
        without_shown(entries.drop_last(), song_id)
    } else {
        without_shown(entries.drop_last(), song_id).push(entries.last())
    }
}

/// The entries of other messages.
pub open spec fn without_message(entries: Seq<(u64, String)>, message_id: u64) -> Seq<(u64, String)>
    decreases entries.len(),
{
    if entries.len() == 0 {
        entries
    } else if entries.last().0 == message_id {
        without_message(entries.drop_last(), message_id)
    } else {
        without_message(entries.drop_last(), message_id).push(entries.last())
    }
}

fn keep_other_songs(es: &Vec<(u64, String)>, song_id: &String) -> (r: Vec<(u64, String)>)
    ensures
        r@ == without_shown(es@, song_id@),
{
    let mut kept: Vec<(u64, String)> = Vec::new();
    let mut i: usize = 0;
    while i < es.len()
        invariant
            i <= es@.len(),
            kept@ == without_shown(es@.take(i as int), song_id@),
        decreases es.len() - i,
    {
        assert(es@.take(i + 1).drop_last() =~= es@.take(i as int));
        if es[i].1 != *song_id {
            kept.push((es[i].0, es[i].1.clone()));
        }
        i = i + 1;
    }
    assert(es@.take(es@.len() as int) =~= es@);
    kept
}

fn keep_other_messages(es: &Vec<(u64, String)>, message_id: u64) -> (r: Vec<(u64, String)>)
    ensures
        r@ == without_message(es@, message_id),
{
    let mut kept: Vec<(u64, String)> = Vec::new();
    let mut i: usize = 0;
    while i < es.len()
        invariant
            i <= es@.len(),
            kept@ == without_message(es@.take(i as int), message_id),
        decreases es.len() - i,
    {
        assert(es@.take(i + 1).drop_last() =~= es@.take(i as int));
        if es[i].0 != message_id {
            kept.push((es[i].0, es[i].1.clone()));
        }
        i = i + 1;
    }
    assert(es@.take(es@.len() as int) =~= es@);
    kept
}

fn same_opt_string(a: &Option<String>, b: &Option<String>) -> (r: bool)
    ensures
        r == (opt_chars(*a) == opt_chars(*b)),
{
    match (a, b) {
        (Some(x), Some(y)) => *x == *y,
        (None, None) => true,
        _ => false,
    }
}

proof fn lemma_enqueue_lookup_stable(es: Seq<(String, u64)>, message_id: u64, n: int)
    requires
        0 <= n <= es.len(),
        song_of_enqueue_message(es.take(n), message_id) is Some,
    ensures
        song_of_enqueue_message(es, message_id) == song_of_enqueue_message(es.take(n), message_id),
    decreases es.len() - n,
{
    if n < es.len() {
        assert(es.take(n + 1).drop_last() =~= es.take(n));
        lemma_enqueue_lookup_stable(es, message_id, n + 1);
    } else {
        assert(es.take(n) =~= es);
    }
}

proof fn lemma_queue_lookup_stable(es: Seq<(u64, String)>, message_id: u64, n: int)
    requires
        0 <= n <= es.len(),
        song_of_queue_message(es.take(n), message_id) is Some,
    ensures
        song_of_queue_message(es, message_id) == song_of_queue_message(es.take(n), message_id),
    decreases es.len() - n,
{
    if n < es.len() {
        assert(es.take(n + 1).drop_last() =~= es.take(n));
        lemma_queue_lookup_stable(es, message_id, n + 1);
    } else {
        assert(es.take(n) =~= es);
    }
}

/// What a text message typed on Discord (its words `ws`) by `nick` asks
/// for: a subset of the chat commands, without error replies.
pub open spec fn discord_parsed(r: Option<IrcCommand>, ws: Seq<Seq<char>>, nick: Seq<char>, pattern: Seq<char>) -> bool {
    if ws.len() == 0 {
        r is None
    } else {
        let cmd = ws[0];
        let rest = join_spaced(words_from(ws, 1));
        if cmd == "!play"@ || cmd == "!p"@ {
            if regex_finds(pattern, rest) {
                requests_url(r, rest, nick)
            } else if rest.len() == 0 {
                r is None
            } else {
                r matches Some(IrcCommand::LookUpSong { query, nick: n }) && query@ == rest && n@ == nick
            }
        } else if cmd == "!tempo"@ || cmd == "tempo"@ {
            r matches Some(IrcCommand::Act(Event::Songleader(SongleaderAction::Tempo { nick: n }))) && n@ == nick
        } else if cmd == "!bingo"@ || cmd == "bingo"@ {
            r matches Some(IrcCommand::Act(Event::Songleader(SongleaderAction::Bingo { nick: n }))) && n@ == nick
        } else if cmd == "!skål"@ || cmd == "skål"@ {
            leads(r, SongleaderAction::Skal)
        } else if cmd == "!help"@ {
            leads(r, SongleaderAction::Help)
        } else if cmd == "!ls"@ {
            leads(r, SongleaderAction::ListSongs)
        } else {
            r is None
        }
    }
}

/// What a text message typed on Discord by `nick` asks for, or `None`.
pub fn text_message_to_action(text: &str, nick: &String, config: &Config) -> (r: Option<IrcCommand>)
    ensures
        discord_parsed(r, words(text@), nick@, config.songbook.songbook_re@),
{
    let ws = split_words(text);
    assert(names(ws@) =~= ws@.map_values(|w: String| w@));
    if ws.len() == 0 {
        return None;
    }
    let cmd = &ws[0];
    if is_word(cmd, "!play") || is_word(cmd, "!p") {
        let rest = join_words_from(&ws, 1);
        if regex_match(config.songbook.songbook_re.as_str(), rest.as_str()) {
            Some(IrcCommand::Act(Event::Songleader(SongleaderAction::RequestSongUrl { url: rest, queued_by: nick.clone() })))
        } else if rest.unicode_len() == 0 {
            None
        } else {
            Some(IrcCommand::LookUpSong { query: rest, nick: nick.clone() })
        }
    } else if is_word(cmd, "!tempo") || is_word(cmd, "tempo") {
        Some(IrcCommand::Act(Event::Songleader(SongleaderAction::Tempo { nick: nick.clone() })))
    } else if is_word(cmd, "!bingo") || is_word(cmd, "bingo") {
        Some(IrcCommand::Act(Event::Songleader(SongleaderAction::Bingo { nick: nick.clone() })))
    } else if is_word(cmd, "!skål") || is_word(cmd, "skål") {
        Some(IrcCommand::Act(Event::Songleader(SongleaderAction::Skal)))
    } else if is_word(cmd, "!help") {
        Some(IrcCommand::Act(Event::Songleader(SongleaderAction::Help)))
    } else if is_word(cmd, "!ls") {
        Some(IrcCommand::Act(Event::Songleader(SongleaderAction::ListSongs)))
    } else {
        None
    }
}

/// The event for a song looked up for a Discord text command: enqueue it
/// unless it is too long; failures are dropped silently.
pub fn discord_lookup_outcome(looked_up: Result<Song, String>) -> (e: Option<Event>)
    ensures
        match looked_up {
            Ok(song) => if song.duration > MAX_SONG_DURATION_SECS {
                e is None
            } else {
                e == Some(Event::Playback(PlaybackAction::Enqueue { song }))
            },
            Err(_) => e is None,
        },
{
    match looked_up {
        Ok(song) => {
            if song.duration > MAX_SONG_DURATION_SECS {
                None
            } else {
                Some(Event::Playback(PlaybackAction::Enqueue { song }))
            }
        },
        Err(_) => None,
    }
}

/// What `/play` does with its argument, typed by `nick`: a songbook URL
/// becomes a song request; anything else is looked up on YouTube.
pub fn play_command(url_or_search: String, nick: String, config: &Config) -> (r: IrcCommand)
    ensures
        regex_finds(config.songbook.songbook_re@, url_or_search@) ==> r == (IrcCommand::Act(
            Event::Songleader(SongleaderAction::RequestSongUrl { url: url_or_search, queued_by: nick }),
        )),
        !regex_finds(config.songbook.songbook_re@, url_or_search@) ==> r == (IrcCommand::LookUpSong {
            query: url_or_search,
            nick,
        }),
{
    if regex_match(config.songbook.songbook_re.as_str(), url_or_search.as_str()) {
        IrcCommand::Act(Event::Songleader(SongleaderAction::RequestSongUrl { url: url_or_search, queued_by: nick }))
    } else {
        IrcCommand::LookUpSong { query: url_or_search, nick }
    }
}

/// What `/play` answers once the song was looked up on YouTube: the song
/// to enqueue (none when it is too long or the lookup failed, with the
/// failure's text) and the reply.
pub fn play_outcome(looked_up: Result<Song, String>) -> (r: (Option<Song>, String))
    ensures
        match looked_up {
            Ok(song) => if song.duration > MAX_SONG_DURATION_SECS {
                r.0 is None && r.1@ == "❌ Song is too long! Max duration is "@ + decimal(
                    (MAX_SONG_DURATION_SECS / 60) as nat,
                ) + " minutes."@
            } else {
                r.0 == Some(song) && r.1@ == "🎵 Added **"@ + song.title@ + "** to the queue"@
            },
            Err(e) => r.0 is None && r.1@ == "❌ Error: "@ + e@,
        },
{
    match looked_up {
        Ok(song) => {
            if song.duration > MAX_SONG_DURATION_SECS {
                let mut reply = str_to_string("❌ Song is too long! Max duration is ");
                push_decimal(&mut reply, MAX_SONG_DURATION_SECS / 60);
                push_str(&mut reply, " minutes.");
                (None, reply)
            } else {
                let mut reply = str_to_string("🎵 Added **");
                push_str(&mut reply, song.title.as_str());
                push_str(&mut reply, "** to the queue");
                (Some(song), reply)
            }
        },
        Err(e) => {
            let mut reply = str_to_string("❌ Error: ");
            push_str(&mut reply, e.as_str());
            (None, reply)
        },
    }
}

/// The reply when a command does not fit the songleader's mode.
pub open spec fn wrong_mode_text(mode: ModeView, cmd: Seq<char>) -> Seq<char> {
    match mode {
        ModeView::Inactive => "❌ The party hasn't started yet. Use `/song_admin begin` to start."@,
        ModeView::Starting => "❌ The party is starting, please wait..."@,
        ModeView::Tempo { .. } => if cmd == "bingo"@ {
            "❌ We're in tempo mode. Use `/tempo` to speedup waiting for the next song."@
        } else {
            "❌ No song is being sung. Use `/tempo` to speedup waiting for the next song."@
        },
        ModeView::Bingo { .. } => if cmd == "tempo"@ {
            "❌ We're waiting for bingo! Use `/bingo` instead."@
        } else {
            "❌ We're waiting for bingo! Use `/bingo` when you've found the song."@
        },
        ModeView::Singing => "❌ A song is being sung! Use `/skal` when it's finished."@,
    }
}

/// The reply to `/tempo` by `nick`, and whether the command counts (only in
/// tempo mode).
pub open spec fn tempo_reply(mode: ModeView, nick: Seq<char>) -> (bool, Seq<char>) {
    match mode {
        ModeView::Tempo { nicks, .. } => (true, if nicks.contains(nick) {
            "⏭️ You already voted! ("@ + decimal(nicks.len()) + "/"@ + decimal(NUM_TEMPO_NICKS as nat) + ")"@
        } else if nicks.len() + 1 >= NUM_TEMPO_NICKS {
            "⏭️ Tempo! 🎉 That's enough votes, moving to bingo!"@
        } else {
            "⏭️ Tempo! ("@ + decimal(nicks.len() + 1) + "/"@ + decimal(NUM_TEMPO_NICKS as nat) + ", need "@
                + decimal((NUM_TEMPO_NICKS - nicks.len() - 1) as nat) + " more)"@
        }),
        _ => (false, wrong_mode_text(mode, "tempo"@)),
    }
}

/// The reply to `/bingo` by `nick`, and whether the command counts (only in
/// bingo mode).
pub open spec fn bingo_reply(mode: ModeView, nick: Seq<char>) -> (bool, Seq<char>) {
    match mode {
        ModeView::Bingo { nicks, song } => (true, if nicks.contains(nick) {
            "🎯 You already found **"@ + title_or_id(song) + "**! ("@ + decimal(nicks.len()) + "/"@ + decimal(
                NUM_BINGO_NICKS as nat,
            ) + ")"@
        } else if nicks.len() + 1 >= NUM_BINGO_NICKS {
            "🎯 Bingo! 🎉 Everyone's ready to sing **"@ + title_or_id(song) + "**!"@
        } else {
            "🎯 Found **"@ + title_or_id(song) + "**! ("@ + decimal(nicks.len() + 1) + "/"@ + decimal(
                NUM_BINGO_NICKS as nat,
            ) + ", need "@ + decimal((NUM_BINGO_NICKS - nicks.len() - 1) as nat) + " more)"@
        }),
        _ => (false, wrong_mode_text(mode, "bingo"@)),
    }
}

/// The reply to `/skal`, and whether the command counts (only while
/// singing).
pub open spec fn skal_reply(mode: ModeView) -> (bool, Seq<char>) {
    match mode {
        ModeView::Singing => (true, "🍻 Skål!"@),
        _ => (false, wrong_mode_text(mode, "skal"@)),
    }
}

fn wrong_mode(mode: &Mode, cmd: &str) -> (s: String)
    ensures
        s@ == wrong_mode_text(mode@, cmd@),
{
    match mode {
        Mode::Inactive => str_to_string("❌ The party hasn't started yet. Use `/song_admin begin` to start."),
        Mode::Starting => str_to_string("❌ The party is starting, please wait..."),
        Mode::Tempo { .. } => {
            if str_to_string(cmd) == str_to_string("bingo") {
                str_to_string("❌ We're in tempo mode. Use `/tempo` to speedup waiting for the next song.")
            } else {
                str_to_string("❌ No song is being sung. Use `/tempo` to speedup waiting for the next song.")
            }
        },
        Mode::Bingo { .. } => {
            if str_to_string(cmd) == str_to_string("tempo") {
                str_to_string("❌ We're waiting for bingo! Use `/bingo` instead.")
            } else {
                str_to_string("❌ We're waiting for bingo! Use `/bingo` when you've found the song.")
            }
        },
        Mode::Singing => str_to_string("❌ A song is being sung! Use `/skal` when it's finished."),
    }
}

/// The reply to `/tempo` by `nick`, and whether to send the tempo.
pub fn tempo_command(mode: &Mode, nick: &String) -> (r: (bool, String))
    ensures
        r.0 == tempo_reply(mode@, nick@).0,
        r.1@ == tempo_reply(mode@, nick@).1,
{
    match mode {
        Mode::Tempo { nicks, .. } => {
            let n = nicks.len();
            let reply = if crate::votes::has_name(nicks, nick) {
                let mut s = str_to_string("⏭️ You already voted! (");
                push_decimal(&mut s, n as u64);
                push_str(&mut s, "/");
                push_decimal(&mut s, NUM_TEMPO_NICKS as u64);
                push_str(&mut s, ")");
                assert(s@ =~= tempo_reply(mode@, nick@).1);
                s
            } else if n >= NUM_TEMPO_NICKS - 1 {
                str_to_string("⏭️ Tempo! 🎉 That's enough votes, moving to bingo!")
            } else {
                let mut s = str_to_string("⏭️ Tempo! (");
                push_decimal(&mut s, (n + 1) as u64);
                push_str(&mut s, "/");
                push_decimal(&mut s, NUM_TEMPO_NICKS as u64);
                push_str(&mut s, ", need ");
                push_decimal(&mut s, (NUM_TEMPO_NICKS - n - 1) as u64);
                push_str(&mut s, " more)");
                assert(s@ =~= tempo_reply(mode@, nick@).1);
                s
            };
            (true, reply)
        },
        _ => (false, wrong_mode(mode, "tempo")),
    }
}

/// The reply to `/bingo` by `nick`, and whether to send the bingo.
pub fn bingo_command(mode: &Mode, nick: &String) -> (r: (bool, String))
    ensures
        r.0 == bingo_reply(mode@, nick@).0,
        r.1@ == bingo_reply(mode@, nick@).1,
{
    match mode {
        Mode::Bingo { nicks, song } => {
            let n = nicks.len();
            let title = song.title_or_id();
            let reply = if crate::votes::has_name(nicks, nick) {
                let mut s = str_to_string("🎯 You already found **");
                push_str(&mut s, title.as_str());
                push_str(&mut s, "**! (");
                push_decimal(&mut s, n as u64);
                push_str(&mut s, "/");
                push_decimal(&mut s, NUM_BINGO_NICKS as u64);
                push_str(&mut s, ")");
                assert(s@ =~= bingo_reply(mode@, nick@).1);
                s
            } else if n >= NUM_BINGO_NICKS - 1 {
                let mut s = str_to_string("🎯 Bingo! 🎉 Everyone's ready to sing **");
                push_str(&mut s, title.as_str());
                push_str(&mut s, "**!");
                assert(s@ =~= bingo_reply(mode@, nick@).1);
                s
            } else {
                let mut s = str_to_string("🎯 Found **");
                push_str(&mut s, title.as_str());
                push_str(&mut s, "**! (");
                push_decimal(&mut s, (n + 1) as u64);
                push_str(&mut s, "/");
                push_decimal(&mut s, NUM_BINGO_NICKS as u64);
                push_str(&mut s, ", need ");
                push_decimal(&mut s, (NUM_BINGO_NICKS - n - 1) as u64);
                push_str(&mut s, " more)");
                assert(s@ =~= bingo_reply(mode@, nick@).1);
                s
            };
            (true, reply)
        },
        _ => (false, wrong_mode(mode, "bingo")),
    }
}

/// The reply to `/skal`, and whether to send the skål.
pub fn skal_command(mode: &Mode) -> (r: (bool, String))
    ensures
        r.0 == skal_reply(mode@).0,
        r.1@ == skal_reply(mode@).1,
{
    match mode {
        Mode::Singing => (true, str_to_string("🍻 Skål!")),
        _ => (false, wrong_mode(mode, "skal")),
    }
}

/// The songleader's mode as the state report shows it.
pub open spec fn mode_line(mode: ModeView) -> Seq<char> {
    match mode {
        ModeView::Inactive => "Inactive"@,
        ModeView::Starting => "Starting"@,
        ModeView::Tempo { nicks, .. } => "Tempo ("@ + decimal(nicks.len()) + "/"@ + decimal(
            NUM_TEMPO_NICKS as nat,
        ) + " votes)"@,
        ModeView::Bingo { nicks, song } => "Bingo ("@ + decimal(nicks.len()) + "/"@ + decimal(
            NUM_BINGO_NICKS as nat,
        ) + " ready) - "@ + title_or_id(song),
        ModeView::Singing => "Singing"@,
    }
}

/// The songleader part of the state report.
pub open spec fn songleader_report_text(m: SongleaderModel) -> Seq<char> {
    "**Mode:** "@ + mode_line(m.mode) + "\n**Requests:** "@ + decimal(m.requests.len())
        + "\n**First songs:** "@ + decimal(m.first.len()) + "\n**Backup:** "@ + decimal(
        m.backup.len(),
    )
}

/// "Yes" or "No".
pub open spec fn yes_no(b: bool) -> Seq<char> {
    if b {
        "Yes"@
    } else {
        "No"@
    }
}

/// The music queue part of the state report.
pub open spec fn playback_report_text(m: PlaybackModel) -> Seq<char> {
    "**Now playing:** "@ + (if m.queued.len() > 0 {
        m.queued[0].title@
    } else {
        "(nothing)"@
    }) + "\n**Queue:** "@ + decimal(m.queued.len()) + " songs\n**Played:** "@ + decimal(
        m.played.len(),
    ) + " songs\n**Playing:** "@ + yes_no(m.is_playing) + "\n**Should play:** "@ + yes_no(
        m.should_play,
    ) + "\n**Songs with votes:** "@ + decimal(m.votes.dom().len())
}

/// The songleader part of the state report: its mode (with the votes of
/// the current round), and how many requests, first songs and backup songs
/// it holds.
pub fn songleader_report(state: &SongleaderState) -> (s: String)
    ensures
        s@ == songleader_report_text(state@),
{
    let mut s = str_to_string("**Mode:** ");
    match &state.mode {
        Mode::Inactive => push_str(&mut s, "Inactive"),
        Mode::Starting => push_str(&mut s, "Starting"),
        Mode::Tempo { nicks, .. } => {
            push_str(&mut s, "Tempo (");
            push_decimal(&mut s, nicks.len() as u64);
            push_str(&mut s, "/");
            push_decimal(&mut s, NUM_TEMPO_NICKS as u64);
            push_str(&mut s, " votes)");
        },
        Mode::Bingo { nicks, song } => {
            push_str(&mut s, "Bingo (");
            push_decimal(&mut s, nicks.len() as u64);
            push_str(&mut s, "/");
            push_decimal(&mut s, NUM_BINGO_NICKS as u64);
            push_str(&mut s, " ready) - ");
            let title = song.title_or_id();
            push_str(&mut s, title.as_str());
        },
        Mode::Singing => push_str(&mut s, "Singing"),
    }
    assert(s@ =~= "**Mode:** "@ + mode_line(state.mode@));
    push_str(&mut s, "\n**Requests:** ");
    push_decimal(&mut s, state.requests.len() as u64);
    push_str(&mut s, "\n**First songs:** ");
    push_decimal(&mut s, state.first_songs.len() as u64);
    push_str(&mut s, "\n**Backup:** ");
    push_decimal(&mut s, state.backup.len() as u64);
    assert(s@ =~= songleader_report_text(state@));
    s
}

/// The music queue part of the state report: the current song, how many
/// songs are queued and played, whether music plays and is wanted, and how
/// many songs have votes.
pub fn playback_report(state: &PlaybackState) -> (s: String)
    ensures
        s@ == playback_report_text(state@),
{
    let mut s = str_to_string("**Now playing:** ");
    if state.queued_songs.len() > 0 {
        push_str(&mut s, state.queued_songs[0].title.as_str());
    } else {
        push_str(&mut s, "(nothing)");
    }
    push_str(&mut s, "\n**Queue:** ");
    push_decimal(&mut s, state.queued_songs.len() as u64);
    push_str(&mut s, " songs\n**Played:** ");
    push_decimal(&mut s, state.played_songs.len() as u64);
    push_str(&mut s, " songs\n**Playing:** ");
    push_str(&mut s, if state.is_playing { "Yes" } else { "No" });
    push_str(&mut s, "\n**Should play:** ");
    push_str(&mut s, if state.should_play { "Yes" } else { "No" });
    push_str(&mut s, "\n**Songs with votes:** ");
    let counted = state.song_votes.to_vec();
    push_decimal(&mut s, counted.len() as u64);
    assert(s@ =~= playback_report_text(state@));
    s
}

/// An entry of another song than `song_id`.
pub open spec fn other_song(song_id: Seq<char>) -> spec_fn((String, u64)) -> bool {
    |e: (String, u64)| e.0@ != song_id
}

/// Forgetting a song's enqueue message keeps exactly the entries of the
/// other songs, in their order: posting a song's enqueue message never
/// drops what the other songs' messages count for.
pub proof fn law_forgetting_keeps_other_songs(entries: Seq<(String, u64)>, song_id: Seq<char>)
    ensures
        without_song(entries, song_id) == entries.filter(other_song(song_id)),
        forall|e: (String, u64)|
            #[trigger] without_song(entries, song_id).contains(e) <==> entries.contains(e) && e.0@ != song_id,
    decreases entries.len(),
{
    let keep = other_song(song_id);
    reveal(Seq::filter);
    if entries.len() > 0 {
        law_forgetting_keeps_other_songs(entries.drop_last(), song_id);
    }
    assert(without_song(entries, song_id) =~= entries.filter(keep));
    assert forall|e: (String, u64)|
        #[trigger] without_song(entries, song_id).contains(e) <==> entries.contains(e) && e.0@ != song_id by {
        if entries.contains(e) && e.0@ != song_id {
            let i = choose|i: int| 0 <= i < entries.len() && entries[i] == e;
            entries.lemma_filter_contains(keep, i);
        }
        if entries.filter(keep).contains(e) {
            entries.lemma_filter_contains_rev(keep, e);
            let k = choose|k: int| 0 <= k < entries.filter(keep).len() && entries.filter(keep)[k] == e;
            entries.lemma_filter_pred(keep, k);
        }
    }
}

/// Each command is sent to the songleader exactly in the mode it belongs
/// to, whoever types it and however many voted before: tempo votes in
/// tempo mode, bingo votes in bingo mode (the one that completes the round
/// included), skål while singing.
pub proof fn law_commands_sent_in_their_mode(mode: ModeView, nick: Seq<char>)
    ensures
        tempo_reply(mode, nick).0 == (mode is Tempo),
        bingo_reply(mode, nick).0 == (mode is Bingo),
        skal_reply(mode).0 == (mode is Singing),
{
}

/// The party's chat commands, whoever types them and whatever follows the
/// command word on the line, on IRC (`r`) and typed on Discord (`d`) alike:
/// "!tempo" or "tempo" is a tempo vote by the nick, "!bingo" or "bingo" a
/// bingo vote by the nick, "!skål" or "skål" ends the song, "!ls" lists the
/// requests and "!help" asks for help. On IRC, "!rm" removes the nick's
/// latest song, "!speak" speaks the rest of the line, and "!request" asks
/// for the song at the rest of the line, for the nick.
pub proof fn law_party_commands(
    r: Option<IrcCommand>,
    d: Option<IrcCommand>,
    ws: Seq<Seq<char>>,
    nick: Seq<char>,
    pattern: Seq<char>,
    is_operator: bool,
)
    requires
        ws.len() > 0,
        parsed(r, ws, nick, pattern, is_operator),
        discord_parsed(d, ws, nick, pattern),
    ensures
        ws[0] == "!tempo"@ || ws[0] == "tempo"@ ==> (r matches Some(
            IrcCommand::Act(Event::Songleader(SongleaderAction::Tempo { nick: n })),
        ) && n@ == nick) && (d matches Some(
            IrcCommand::Act(Event::Songleader(SongleaderAction::Tempo { nick: n })),
        ) && n@ == nick),
        ws[0] == "!bingo"@ || ws[0] == "bingo"@ ==> (r matches Some(
            IrcCommand::Act(Event::Songleader(SongleaderAction::Bingo { nick: n })),
        ) && n@ == nick) && (d matches Some(
            IrcCommand::Act(Event::Songleader(SongleaderAction::Bingo { nick: n })),
        ) && n@ == nick),
        ws[0] == "!skål"@ || ws[0] == "skål"@ ==> r == Some(
            IrcCommand::Act(Event::Songleader(SongleaderAction::Skal)),
        ) && d == Some(IrcCommand::Act(Event::Songleader(SongleaderAction::Skal))),
        ws[0] == "!ls"@ ==> r == Some(IrcCommand::Act(Event::Songleader(SongleaderAction::ListSongs)))
            && d == Some(IrcCommand::Act(Event::Songleader(SongleaderAction::ListSongs))),
        ws[0] == "!help"@ ==> r == Some(IrcCommand::Act(Event::Songleader(SongleaderAction::Help)))
            && d == Some(IrcCommand::Act(Event::Songleader(SongleaderAction::Help))),
        ws[0] == "!rm"@ ==> (r matches Some(
            IrcCommand::Act(Event::Playback(PlaybackAction::RmSongByNick { nick: n })),
        ) && n@ == nick),
        ws[0] == "!speak"@ ==> (r matches Some(
            IrcCommand::Act(Event::TextToSpeech(TextToSpeechAction::Speak { text, prio })),
        ) && text@ == join_spaced(words_from(ws, 1)) && prio == Priority::Low),
        ws[0] == "!request"@ ==> (r matches Some(
            IrcCommand::Act(Event::Songleader(SongleaderAction::RequestSongUrl { url, queued_by })),
        ) && url@ == join_spaced(words_from(ws, 1)) && queued_by@ == nick),
{
    reveal_strlit("!play");
    assert("!play"@.len() == 5 && "!play"@[0] == '!' && "!play"@[1] == 'p' && "!play"@[2] == 'l');
    reveal_strlit("!p");
    assert("!p"@.len() == 2 && "!p"@[0] == '!' && "!p"@[1] == 'p');
    reveal_strlit("!queue");
    assert("!queue"@.len() == 6 && "!queue"@[0] == '!' && "!queue"@[1] == 'q' && "!queue"@[2] == 'u');
    reveal_strlit("!q");
    assert("!q"@.len() == 2 && "!q"@[0] == '!' && "!q"@[1] == 'q');
    reveal_strlit("!np");
    assert("!np"@.len() == 3 && "!np"@[0] == '!' && "!np"@[1] == 'n' && "!np"@[2] == 'p');
    reveal_strlit("!rm");
    assert("!rm"@.len() == 3 && "!rm"@[0] == '!' && "!rm"@[1] == 'r' && "!rm"@[2] == 'm');
    reveal_strlit("!speak");
    assert("!speak"@.len() == 6 && "!speak"@[0] == '!' && "!speak"@[1] == 's' && "!speak"@[2] == 'p');
    reveal_strlit("!say");
    assert("!say"@.len() == 4 && "!say"@[0] == '!' && "!say"@[1] == 's' && "!say"@[2] == 'a');
    reveal_strlit("!request");
    assert("!request"@.len() == 8 && "!request"@[0] == '!' && "!request"@[1] == 'r' && "!request"@[2] == 'e');
    reveal_strlit("!req");
    assert("!req"@.len() == 4 && "!req"@[0] == '!' && "!req"@[1] == 'r' && "!req"@[2] == 'e');
    reveal_strlit("!r");
    assert("!r"@.len() == 2 && "!r"@[0] == '!' && "!r"@[1] == 'r');
    reveal_strlit("!add");
    assert("!add"@.len() == 4 && "!add"@[0] == '!' && "!add"@[1] == 'a' && "!add"@[2] == 'd');
    reveal_strlit("!tempo");
    assert("!tempo"@.len() == 6 && "!tempo"@[0] == '!' && "!tempo"@[1] == 't' && "!tempo"@[2] == 'e');
    reveal_strlit("tempo");
    assert("tempo"@.len() == 5 && "tempo"@[0] == 't' && "tempo"@[1] == 'e' && "tempo"@[2] == 'm');
    reveal_strlit("!bingo");
    assert("!bingo"@.len() == 6 && "!bingo"@[0] == '!' && "!bingo"@[1] == 'b' && "!bingo"@[2] == 'i');
    reveal_strlit("bingo");
    assert("bingo"@.len() == 5 && "bingo"@[0] == 'b' && "bingo"@[1] == 'i' && "bingo"@[2] == 'n');
    reveal_strlit("!skål");
    assert("!skål"@.len() == 5 && "!skål"@[0] == '!' && "!skål"@[1] == 's' && "!skål"@[2] == 'k');
    reveal_strlit("skål");
    assert("skål"@.len() == 4 && "skål"@[0] == 's' && "skål"@[1] == 'k' && "skål"@[2] == 'å');
    reveal_strlit("!ls");
    assert("!ls"@.len() == 3 && "!ls"@[0] == '!' && "!ls"@[1] == 'l' && "!ls"@[2] == 's');
    reveal_strlit("!help");
    assert("!help"@.len() == 5 && "!help"@[0] == '!' && "!help"@[1] == 'h' && "!help"@[2] == 'e');
    reveal_strlit("!song");
    assert("!song"@.len() == 5 && "!song"@[0] == '!' && "!song"@[1] == 's' && "!song"@[2] == 'o');
    reveal_strlit("!sing");
    assert("!sing"@.len() == 5 && "!sing"@[0] == '!' && "!sing"@[1] == 's' && "!sing"@[2] == 'i');
    reveal_strlit("!music");
    assert("!music"@.len() == 6 && "!music"@[0] == '!' && "!music"@[1] == 'm' && "!music"@[2] == 'u');
    reveal_strlit("!playback");
    assert("!playback"@.len() == 9 && "!playback"@[0] == '!' && "!playback"@[1] == 'p' && "!playback"@[2] == 'l');
}

} // verus!
