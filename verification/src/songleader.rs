//! The songleader: the state machine that leads the party from song to song.

use vstd::prelude::*;

use rand::Rng;
use std::collections::VecDeque;

use crate::config::Config;
use crate::event::{is_bot_text, Effect, Event};
use crate::message::{CountdownValue, MessageAction, RichContent};
use crate::playback::{names, PlaybackAction};
use crate::songbook::SongbookSong;
use crate::songleader_laws::{law_nicks_stay_distinct, lemma_bingo_model_nicks_distinct};
use crate::songleader_model::{
    bingo_effects, bingo_model, bingo_text, cue_ok, fresh_tempo, follows, in_mode,
    is_bingo_announcement, is_countdown, is_speech, low_prio_speech, music, persist, relax_cues,
    singing_effects, end_cues, Cue, help_lines, welcome_lines, join_lines, is_party_song, begun,
    begin_cues, line_cues, verse, handled, handled_effects, with_nick, is_request_added,
    is_request_removed, is_song_list, is_help, song_list_text, join_titles, help_text,
    tempo_expired,
};
use crate::playback::clone_strings;
use crate::songbook::{display_text, title_or_id};
use crate::text::push_decimal;
use crate::sources::espeak::{Priority, TextToSpeechAction};
use crate::text::{push_str, str_to_string};
use crate::votes::has_name;

verus! {

#[derive(Clone, Debug)]
pub enum SongleaderAction {
    /// Request a song to be sung, by songbook URL.
    RequestSongUrl { url: String, queued_by: String },
    /// Request a song to be sung, by song.
    RequestSong { song: SongbookSong },
    /// Remove a request by song id.
    RmSongById { id: String },
    /// Remove the latest request of a nick.
    RmSongByNick { nick: String },
    /// Advance to the next song faster.
    Tempo { nick: String },
    /// Ready to sing the upcoming song.
    Bingo { nick: String },
    /// The song is finished.
    Skal,
    /// Respond with the list of song requests.
    ListSongs,
    /// Force tempo mode.
    ForceTempo,
    /// Force bingo mode.
    ForceBingo,
    /// Force singing mode.
    ForceSinging,
    /// Pause the songleader.
    Pause,
    /// End the party.
    End,
    /// Start the party.
    Begin,
    /// Print the help text.
    Help,
}

/// Number of distinct nicks whose "!tempo" moves on to the next song.
pub const NUM_TEMPO_NICKS: usize = 3;

/// Number of distinct nicks whose "!bingo" starts the song.
pub const NUM_BINGO_NICKS: usize = 3;

/// What the songleader is doing.
#[derive(Debug)]
pub enum Mode {
    /// The songleader is inactive; this pauses it.
    Inactive,
    /// The songleader is playing its starting routine.
    Starting,
    /// Waiting to sing the next song: until [NUM_TEMPO_NICKS] nicks have
    /// typed "!tempo" or the tempo deadline has passed. Each "!tempo" brings
    /// the deadline a minute closer.
    Tempo {
        /// Nicks that typed "!tempo", each once.
        nicks: Vec<String>,
        /// When tempo mode was entered, in milliseconds of the application's
        /// monotonic clock.
        init_t: u64,
    },
    /// Waiting for everyone to find the song: until [NUM_BINGO_NICKS] nicks
    /// have typed "!bingo".
    Bingo {
        /// Nicks that typed "!bingo", each once.
        nicks: Vec<String>,
        /// The song about to be sung.
        song: SongbookSong,
    },
    /// Singing, until somebody types "!skål".
    Singing,
}

/// The mode as mathematics: nicks by their names.
pub enum ModeView {
    Inactive,
    Starting,
    Tempo { nicks: Seq<Seq<char>>, init_t: u64 },
    Bingo { nicks: Seq<Seq<char>>, song: SongbookSong },
    Singing,
}

impl View for Mode {
    type V = ModeView;

    open spec fn view(&self) -> ModeView {
        match self {
            Mode::Inactive => ModeView::Inactive,
            Mode::Starting => ModeView::Starting,
            Mode::Tempo { nicks, init_t } => ModeView::Tempo { nicks: names(nicks@), init_t: *init_t },
            Mode::Bingo { nicks, song } => ModeView::Bingo { nicks: names(nicks@), song: *song },
            Mode::Singing => ModeView::Singing,
        }
    }
}

impl Default for Mode {
    fn default() -> (m: Self)
        ensures
            m@ == ModeView::Inactive,
    {
        Mode::Inactive
    }
}

/// The nicks counted in the current round are listed once each, as a set
/// holds them; every state the songleader enters keeps this.
pub open spec fn nicks_distinct(mode: ModeView) -> bool {
    match mode {
        ModeView::Tempo { nicks, .. } => nicks.no_duplicates(),
        ModeView::Bingo { nicks, .. } => nicks.no_duplicates(),
        _ => true,
    }
}

/// The same names, in any order.
pub open spec fn same_names(a: Seq<Seq<char>>, b: Seq<Seq<char>>) -> bool {
    forall|x: Seq<char>| a.contains(x) <==> b.contains(x)
}

/// Equality of modes: the same variant, the same nicks in any order (they
/// form a set), and the same start time or the same song (by id).
pub open spec fn mode_eq(a: ModeView, b: ModeView) -> bool {
    match (a, b) {
        (ModeView::Inactive, ModeView::Inactive) => true,
        (ModeView::Starting, ModeView::Starting) => true,
        (ModeView::Singing, ModeView::Singing) => true,
        (ModeView::Tempo { nicks: n1, init_t: t1 }, ModeView::Tempo { nicks: n2, init_t: t2 }) =>
            same_names(n1, n2) && t1 == t2,
        (ModeView::Bingo { nicks: n1, song: s1 }, ModeView::Bingo { nicks: n2, song: s2 }) =>
            same_names(n1, n2) && s1.id@ == s2.id@,
        _ => false,
    }
}

/// Whether every name of `a` is in `b`.
fn all_names_in(a: &Vec<String>, b: &Vec<String>) -> (r: bool)
    ensures
        r == (forall|x: Seq<char>| names(a@).contains(x) ==> names(b@).contains(x)),
{
    let mut i: usize = 0;
    while i < a.len()
        invariant
            i <= a@.len(),
            forall|j: int| 0 <= j < i ==> names(b@).contains(#[trigger] names(a@)[j]),
        decreases a.len() - i,
    {
        if !has_name(b, &a[i]) {
            assert(names(a@).contains(names(a@)[i as int]));
            return false;
        }
        i = i + 1;
    }
    proof {
        assert forall|x: Seq<char>| names(a@).contains(x) implies names(b@).contains(x) by {
            let j = choose|j: int| 0 <= j < names(a@).len() && names(a@)[j] == x;
        }
    }
    true
}

impl PartialEq for Mode {
    fn eq(&self, other: &Self) -> (r: bool) {
        match (self, other) {
            (Mode::Inactive, Mode::Inactive) => true,
            (Mode::Starting, Mode::Starting) => true,
            (Mode::Singing, Mode::Singing) => true,
            (Mode::Tempo { nicks: n1, init_t: t1 }, Mode::Tempo { nicks: n2, init_t: t2 }) => {
                *t1 == *t2 && all_names_in(n1, n2) && all_names_in(n2, n1)
            },
            (Mode::Bingo { nicks: n1, song: s1 }, Mode::Bingo { nicks: n2, song: s2 }) => {
                s1.id == s2.id && all_names_in(n1, n2) && all_names_in(n2, n1)
            },
            _ => false,
        }
    }
}

impl vstd::std_specs::cmp::PartialEqSpecImpl for Mode {
    open spec fn obeys_eq_spec() -> bool {
        true
    }

    open spec fn eq_spec(&self, other: &Self) -> bool {
        mode_eq(self@, other@)
    }
}

/// Why a request could not be added or removed.
#[derive(Clone, Debug)]
pub enum SongleaderError {
    /// The song is already requested (and not just a backup song).
    AlreadyRequested,
    /// No request has the id.
    NotFoundById { id: String },
    /// The nick has no request.
    NoRequestsBy { nick: String },
}

/// The text that describes an error.
pub open spec fn error_text(e: SongleaderError) -> Seq<char> {
    match e {
        SongleaderError::AlreadyRequested => "Song already requested"@,
        SongleaderError::NotFoundById { id } => "Song not found by id "@ + id@,
        SongleaderError::NoRequestsBy { nick } => "No song requests found by "@ + nick@,
    }
}

impl SongleaderError {
    /// The text that describes the error.
    pub fn message(&self) -> (s: String)
        ensures
            s@ == error_text(*self),
    {
        let mut s = String::new();
        match self {
            SongleaderError::AlreadyRequested => push_str(&mut s, "Song already requested"),
            SongleaderError::NotFoundById { id } => {
                push_str(&mut s, "Song not found by id ");
                push_str(&mut s, id.as_str());
            },
            SongleaderError::NoRequestsBy { nick } => {
                push_str(&mut s, "No song requests found by ");
                push_str(&mut s, nick.as_str());
            },
        }
        assert(s@ =~= error_text(*self));
        s
    }
}

/// The songs the songleader picks from, and its mode.
#[derive(Debug)]
pub struct SongleaderState {
    /// Songs that the songleader sings first, in order.
    pub first_songs: VecDeque<SongbookSong>,
    /// All song requests.
    pub requests: Vec<SongbookSong>,
    /// Backup songs in case the requests run out.
    pub backup: Vec<SongbookSong>,
    /// The current mode.
    pub mode: Mode,
}

/// The songleader's state as mathematics.
pub struct SongleaderModel {
    pub first: Seq<SongbookSong>,
    pub requests: Seq<SongbookSong>,
    pub backup: Seq<SongbookSong>,
    pub mode: ModeView,
}

impl View for SongleaderState {
    type V = SongleaderModel;

    open spec fn view(&self) -> SongleaderModel {
        SongleaderModel {
            first: self.first_songs@,
            requests: self.requests@,
            backup: self.backup@,
            mode: self.mode@,
        }
    }
}

impl Default for SongleaderState {
    fn default() -> (s: Self)
        ensures
            s@.first.len() == 0,
            s@.requests.len() == 0,
            s@.backup.len() == 0,
            s@.mode == ModeView::Inactive,
    {
        SongleaderState {
            first_songs: VecDeque::new(),
            requests: Vec::new(),
            backup: Vec::new(),
            mode: Mode::Inactive,
        }
    }
}

/// All songs, in the order they are listed: first songs, requests, backup.
pub open spec fn all_songs(m: SongleaderModel) -> Seq<SongbookSong> {
    m.first + m.requests + m.backup
}

/// A song of the list has the id.
pub open spec fn has_id(s: Seq<SongbookSong>, id: Seq<char>) -> bool {
    exists|i: int| 0 <= i < s.len() && (#[trigger] s[i]).id@ == id
}

/// The position of the first song with the id among the first `n`.
pub open spec fn first_with_id(s: Seq<SongbookSong>, id: Seq<char>, n: int) -> Option<int>
    decreases n,
{
    if n <= 0 {
        None
    } else {
        match first_with_id(s, id, n - 1) {
            Some(i) => Some(i),
            None => if s[n - 1].id@ == id {
                Some(n - 1)
            } else {
                None
            },
        }
    }
}

/// The song was requested by `nick`.
pub open spec fn requested_by(song: SongbookSong, nick: Seq<char>) -> bool {
    song.queued_by matches Some(q) && q@ == nick
}

/// The position of the last song requested by `nick` among the first `n`.
pub open spec fn last_requested_by(s: Seq<SongbookSong>, nick: Seq<char>, n: int) -> Option<int>
    decreases n,
{
    if n <= 0 {
        None
    } else if requested_by(s[n - 1], nick) {
        Some(n - 1)
    } else {
        last_requested_by(s, nick, n - 1)
    }
}

/// The state after a successful request of `song`: a backup copy of it, if
/// any, leaves the backup songs, and the song joins the requests.
pub open spec fn with_request(m: SongleaderModel, song: SongbookSong) -> SongleaderModel {
    let backup = match first_with_id(m.backup, song.id@, m.backup.len() as int) {
        Some(i) => m.backup.remove(i),
        None => m.backup,
    };
    SongleaderModel { backup, requests: m.requests.push(song), ..m }
}

/// A request of `song` is refused: a song with its id is listed, and not
/// among the backup songs.
pub open spec fn request_refused(m: SongleaderModel, song: SongbookSong) -> bool {
    has_id(all_songs(m), song.id@) && !has_id(m.backup, song.id@)
}

/// How many songs the next pick chooses among: the requests if any, else
/// the backup songs if any (first songs are taken in order).
pub open spec fn pick_range(m: SongleaderModel) -> nat {
    if m.first.len() == 0 && m.requests.len() > 0 {
        m.requests.len()
    } else if m.first.len() == 0 && m.backup.len() > 0 {
        m.backup.len()
    } else {
        1
    }
}

/// The state after taking the next song to sing, `pick` choosing among the
/// requests or the backup songs.
pub open spec fn after_pop(m: SongleaderModel, pick: int) -> SongleaderModel {
    if m.first.len() > 0 {
        SongleaderModel { first: m.first.drop_first(), ..m }
    } else if m.requests.len() > 0 {
        SongleaderModel { requests: m.requests.remove(pick), ..m }
    } else if m.backup.len() > 0 {
        SongleaderModel { backup: m.backup.remove(pick), ..m }
    } else {
        m
    }
}

/// The next song to sing: the first of the first songs, else the picked
/// request, else the picked backup song, else none.
pub open spec fn popped(m: SongleaderModel, pick: int) -> Option<SongbookSong> {
    if m.first.len() > 0 {
        Some(m.first[0])
    } else if m.requests.len() > 0 {
        Some(m.requests[pick])
    } else if m.backup.len() > 0 {
        Some(m.backup[pick])
    } else {
        None
    }
}

/// A number drawn uniformly from `0..n`.
#[verifier::external_body]
fn random_below(n: usize) -> (r: usize)
    requires
        n > 0,
    ensures
        r < n,
{
    rand::rng().random_range(0..n)
}

impl SongleaderState {
    /// All songs: first songs, then requests, then backup songs.
    pub fn get_songs(&self) -> (songs: Vec<SongbookSong>)
        ensures
            songs@ == all_songs(self@),
    {
        let mut songs: Vec<SongbookSong> = Vec::new();
        let mut i: usize = 0;
        while i < self.first_songs.len()
            invariant
                i <= self@.first.len(),
                songs@ =~= self@.first.take(i as int),
            decreases self@.first.len() - i,
        {
            songs.push(self.first_songs[i].clone());
            i = i + 1;
        }
        assert(self@.first.take(self@.first.len() as int) =~= self@.first);
        let mut i: usize = 0;
        while i < self.requests.len()
            invariant
                i <= self@.requests.len(),
                songs@ =~= self@.first + self@.requests.take(i as int),
            decreases self@.requests.len() - i,
        {
            songs.push(self.requests[i].clone());
            i = i + 1;
        }
        assert(self@.requests.take(self@.requests.len() as int) =~= self@.requests);
        let mut i: usize = 0;
        while i < self.backup.len()
            invariant
                i <= self@.backup.len(),
                songs@ =~= self@.first + self@.requests + self@.backup.take(i as int),
            decreases self@.backup.len() - i,
        {
            songs.push(self.backup[i].clone());
            i = i + 1;
        }
        assert(self@.backup.take(self@.backup.len() as int) =~= self@.backup);
        songs
    }

    /// Adds a song request. A song already listed is refused, unless it is
    /// only a backup song: then it moves from the backup songs to the
    /// requests.
    pub fn add_request(&mut self, song: SongbookSong) -> (r: Result<SongbookSong, SongleaderError>)
        ensures
            request_refused(old(self)@, song) ==> (r matches Err(SongleaderError::AlreadyRequested)
                && final(self)@ == old(self)@),
            !request_refused(old(self)@, song) ==> r == Ok::<SongbookSong, SongleaderError>(song)
                && final(self)@ == with_request(old(self)@, song),
    {
        let ghost m = self@;
        let listed = has_song_id(&self.get_songs(), &song.id);
        let pos = position_by_id(&self.backup, &song.id);
        proof {
            lemma_first_with_id_found(m.backup, song.id@, m.backup.len() as int);
        }
        if listed {
            match pos {
                Some(i) => {
                    self.backup.remove(i);
                },
                None => {
                    return Err(SongleaderError::AlreadyRequested);
                },
            }
        }
        proof {
            if !listed {
                assert(!has_id(m.backup, song.id@)) by {
                    if has_id(m.backup, song.id@) {
                        let k = choose|k: int| 0 <= k < m.backup.len() && (#[trigger] m.backup[k]).id@ == song.id@;
                        assert(all_songs(m)[m.first.len() + m.requests.len() + k] == m.backup[k]);
                    }
                }
            }
        }
        self.requests.push(song.clone());
        Ok(song)
    }

    /// Removes the first request with the given id.
    pub fn rm_song_by_id(&mut self, id: String) -> (r: Result<SongbookSong, SongleaderError>)
        ensures
            match first_with_id(old(self)@.requests, id@, old(self)@.requests.len() as int) {
                Some(i) => r == Ok::<SongbookSong, SongleaderError>(old(self)@.requests[i])
                    && final(self)@ == (SongleaderModel { requests: old(self)@.requests.remove(i), ..old(self)@ }),
                None => (r matches Err(SongleaderError::NotFoundById { id: e }) && e@ == id@
                    && final(self)@ == old(self)@),
            },
    {
        let ghost m = self@;
        proof {
            lemma_first_with_id_found(m.requests, id@, m.requests.len() as int);
        }
        match position_by_id(&self.requests, &id) {
            Some(i) => {
                let song = self.requests.remove(i);
                proof {
                    assert(self@ =~= (SongleaderModel { requests: m.requests.remove(i as int), ..m }));
                }
                Ok(song)
            },
            None => Err(SongleaderError::NotFoundById { id }),
        }
    }

    /// Removes the latest request by `nick`.
    pub fn rm_song_by_nick(&mut self, nick: String) -> (r: Result<SongbookSong, SongleaderError>)
        ensures
            match last_requested_by(old(self)@.requests, nick@, old(self)@.requests.len() as int) {
                Some(i) => r == Ok::<SongbookSong, SongleaderError>(old(self)@.requests[i])
                    && final(self)@ == (SongleaderModel { requests: old(self)@.requests.remove(i), ..old(self)@ }),
                None => (r matches Err(SongleaderError::NoRequestsBy { nick: e }) && e@ == nick@
                    && final(self)@ == old(self)@),
            },
    {
        let ghost m = self@;
        let mut n: usize = self.requests.len();
        while n > 0
            invariant
                n <= self@.requests.len(),
                self@ == m,
                m == old(self)@,
                last_requested_by(m.requests, nick@, m.requests.len() as int) == last_requested_by(m.requests, nick@, n as int),
            decreases n,
        {
            let found = match &self.requests[n - 1].queued_by {
                Some(q) => *q == nick,
                None => false,
            };
            if found {
                assert(requested_by(m.requests[n - 1], nick@));
                assert(last_requested_by(m.requests, nick@, n as int) == Some(n - 1));
                let song = self.requests.remove(n - 1);
                proof {
                    assert(self@ =~= (SongleaderModel { requests: m.requests.remove(n - 1), ..m }));
                }
                return Ok(song);
            }
            n = n - 1;
        }
        Err(SongleaderError::NoRequestsBy { nick })
    }

    /// Takes the next song to sing: the first of the first songs, else the
    /// request at position `pick`, else the backup song at position `pick`.
    pub fn pop_next_song_with(&mut self, pick: usize) -> (r: Option<SongbookSong>)
        requires
            pick < pick_range(old(self)@),
        ensures
            r == popped(old(self)@, pick as int),
            final(self)@ == after_pop(old(self)@, pick as int),
    {
        let ghost m = self@;
        if self.first_songs.len() > 0 {
            let r = self.first_songs.pop_front();
            assert(self@ =~= after_pop(m, pick as int));
            r
        } else if self.requests.len() > 0 {
            let song = self.requests.remove(pick);
            assert(self@ =~= after_pop(m, pick as int));
            Some(song)
        } else if self.backup.len() > 0 {
            let song = self.backup.remove(pick);
            assert(self@ =~= after_pop(m, pick as int));
            Some(song)
        } else {
            None
        }
    }

    /// Takes the next song to sing: the first of the first songs, else a
    /// random request, else a random backup song.
    pub fn pop_next_song(&mut self) -> (r: Option<SongbookSong>)
        ensures
            exists|pick: int|
                0 <= pick < pick_range(old(self)@) && r == popped(old(self)@, pick)
                    && final(self)@ == after_pop(old(self)@, pick),
    {
        let n = self.pick_range();
        let pick = if n > 1 {
            random_below(n)
        } else {
            0
        };
        self.pop_next_song_with(pick)
    }

    /// How many songs the next pick chooses among.
    pub fn pick_range(&self) -> (n: usize)
        ensures
            n == pick_range(self@),
    {
        if self.first_songs.len() == 0 && self.requests.len() > 0 {
            self.requests.len()
        } else if self.first_songs.len() == 0 && self.backup.len() > 0 {
            self.backup.len()
        } else {
            1
        }
    }
}

/// Whether a song of the list has the id.
fn has_song_id(s: &Vec<SongbookSong>, id: &String) -> (b: bool)
    ensures
        b == has_id(s@, id@),
{
    let mut i: usize = 0;
    while i < s.len()
        invariant
            i <= s@.len(),
            forall|j: int| 0 <= j < i ==> (#[trigger] s@[j]).id@ != id@,
        decreases s.len() - i,
    {
        if s[i].id == *id {
            assert(s@[i as int].id@ == id@);
            return true;
        }
        i = i + 1;
    }
    false
}

/// The position of the first song of the list with the id.
fn position_by_id(s: &Vec<SongbookSong>, id: &String) -> (r: Option<usize>)
    ensures
        match first_with_id(s@, id@, s@.len() as int) {
            Some(i) => (r matches Some(k) && k == i),
            None => r is None,
        },
{
    let mut i: usize = 0;
    while i < s.len()
        invariant
            i <= s@.len(),
            first_with_id(s@, id@, i as int) is None,
            forall|j: int| 0 <= j < i ==> (#[trigger] s@[j]).id@ != id@,
        decreases s.len() - i,
    {
        if s[i].id == *id {
            proof {
                lemma_first_with_id_stable(s@, id@, i as int + 1, s@.len() as int);
            }
            return Some(i);
        }
        i = i + 1;
    }
    None
}

/// Once a position is found among the first `n`, looking further finds the
/// same one.
proof fn lemma_first_with_id_stable(s: Seq<SongbookSong>, id: Seq<char>, n: int, m: int)
    requires
        0 <= n <= m,
        first_with_id(s, id, n) is Some,
    ensures
        first_with_id(s, id, m) == first_with_id(s, id, n),
    decreases m - n,
{
    if m > n {
        lemma_first_with_id_stable(s, id, n, m - 1);
    }
}

/// `first_with_id` finds a song exactly when one has the id, and what it
/// finds is in range and has the id.
proof fn lemma_first_with_id_found(s: Seq<SongbookSong>, id: Seq<char>, n: int)
    requires
        0 <= n <= s.len(),
    ensures
        first_with_id(s, id, n) is Some <==> exists|i: int| 0 <= i < n && (#[trigger] s[i]).id@ == id,
        first_with_id(s, id, n) matches Some(i) ==> 0 <= i < n && s[i].id@ == id,
    decreases n,
{
    if n > 0 {
        lemma_first_with_id_found(s, id, n - 1);
    }
}

/// A plain message from the bot.
fn say(text: String) -> (e: Effect)
    ensures
        is_bot_text(e, text@),
{
    Effect::Send(Event::Message(MessageAction::bot_say(text)))
}

/// A plain message from the bot, from a string slice.
fn say_str(text: &str) -> (e: Effect)
    ensures
        is_bot_text(e, text@),
{
    say(str_to_string(text))
}

/// High priority speech.
fn speech(text: &str) -> (e: Effect)
    ensures
        is_speech(e, text@),
{
    Effect::Send(Event::TextToSpeech(TextToSpeechAction::Speak { text: str_to_string(text), prio: Priority::High }))
}

/// Allows or stops music playback.
fn music_effect(allow: bool) -> (e: Effect)
    ensures
        cue_ok(e, music(allow)),
{
    if allow {
        Effect::Send(Event::Playback(PlaybackAction::Play))
    } else {
        Effect::Send(Event::Playback(PlaybackAction::Pause))
    }
}

/// Allows or stops low priority speech.
fn low_prio_effect(allow: bool) -> (e: Effect)
    ensures
        cue_ok(e, low_prio_speech(allow)),
{
    if allow {
        Effect::Send(Event::TextToSpeech(TextToSpeechAction::AllowLowPrio))
    } else {
        Effect::Send(Event::TextToSpeech(TextToSpeechAction::DisallowLowPrio))
    }
}

/// A countdown step.
fn countdown_effect(text: &str, value: CountdownValue) -> (e: Effect)
    ensures
        is_countdown(e, text@, value),
{
    Effect::Send(Event::Message(MessageAction::rich(str_to_string(text), RichContent::Countdown { value })))
}

/// Appending an effect that its cue expects keeps the effects following
/// the cues.
proof fn lemma_follows_push(effs: Seq<Effect>, cues: Seq<Cue>, e: Effect, c: Cue)
    requires
        follows(effs, cues),
        cue_ok(e, c),
    ensures
        follows(effs.push(e), cues.push(c)),
{
    assert forall|i: int| 0 <= i < effs.len() + 1 implies cue_ok(#[trigger] effs.push(e)[i], cues.push(c)[i]) by {
        if i < effs.len() {
            assert(effs.push(e)[i] == effs[i]);
        }
    }
}

/// Save, then allow music and low priority speech.
fn relax_effects() -> (effs: Vec<Effect>)
    ensures
        follows(effs@, relax_cues()),
{
    let mut effs: Vec<Effect> = Vec::new();
    effs.push(Effect::Persist);
    effs.push(music_effect(true));
    effs.push(low_prio_effect(true));
    proof {
        lemma_follows_push(Seq::empty(), Seq::empty(), effs@[0], persist());
        assert(seq![effs@[0]] =~= Seq::<Effect>::empty().push(effs@[0]));
        lemma_follows_push(seq![effs@[0]], seq![persist()], effs@[1], music(true));
        lemma_follows_push(seq![effs@[0], effs@[1]], seq![persist(), music(true)], effs@[2], low_prio_speech(true));
        assert(effs@ =~= seq![effs@[0], effs@[1], effs@[2]]);
        assert(relax_cues() =~= seq![persist(), music(true), low_prio_speech(true)]);
    }
    effs
}

/// The songleader: leads the party from song to song.
pub struct Songleader {
    /// The current state.
    pub state: SongleaderState,
    /// Base URL of the songbook.
    pub songbook_url: String,
}

impl Songleader {
    /// A songleader with the given state.
    pub fn create_with_state(config: &Config, state: SongleaderState) -> (s: Self)
        ensures
            s.state == state,
            s.songbook_url@ == config.songbook.songbook_url@,
    {
        Songleader { state, songbook_url: config.songbook.songbook_url.clone() }
    }

    /// Becomes inactive, letting music and low priority speech play.
    pub fn enter_inactive_mode(&mut self) -> (effs: Vec<Effect>)
        ensures
            final(self).state@ == in_mode(old(self).state@, ModeView::Inactive),
            final(self).songbook_url == old(self).songbook_url,
            follows(effs@, relax_cues()),
    {
        self.state.mode = Mode::Inactive;
        relax_effects()
    }

    /// Waits for tempo from `now` on, letting music and low priority speech
    /// play.
    pub fn enter_tempo_mode(&mut self, now: u64) -> (effs: Vec<Effect>)
        ensures
            final(self).state@ == in_mode(old(self).state@, fresh_tempo(now)),
            final(self).songbook_url == old(self).songbook_url,
            follows(effs@, relax_cues()),
    {
        self.state.mode = Mode::Tempo { nicks: Vec::new(), init_t: now };
        assert(names(Seq::<String>::empty()) =~= Seq::<Seq<char>>::empty());
        relax_effects()
    }

    /// Starts the song: a jingle and a countdown of three seconds, without
    /// low priority speech.
    pub fn enter_singing_mode(&mut self) -> (effs: Vec<Effect>)
        ensures
            final(self).state@ == in_mode(old(self).state@, ModeView::Singing),
            final(self).songbook_url == old(self).songbook_url,
            singing_effects(effs@),
    {
        self.state.mode = Mode::Singing;
        let mut effs: Vec<Effect> = Vec::new();
        effs.push(Effect::Persist);
        effs.push(low_prio_effect(false));
        effs.push(speech("PLING PLONG"));
        effs.push(countdown_effect("Song starts in 3", CountdownValue::Three));
        effs.push(Effect::Sleep { millis: 1000 });
        effs.push(countdown_effect("2", CountdownValue::Two));
        effs.push(Effect::Sleep { millis: 1000 });
        effs.push(countdown_effect("1", CountdownValue::One));
        effs.push(Effect::Sleep { millis: 1000 });
        effs.push(countdown_effect("NOW!", CountdownValue::Now));
        effs
    }

    /// Takes the next song to sing (`pick` choosing among the requests or
    /// the backup songs) and waits for everyone to find it; with no song
    /// left, says so and waits for tempo again.
    pub fn enter_bingo_mode_with(&mut self, pick: usize, now: u64) -> (effs: Vec<Effect>)
        requires
            pick < pick_range(old(self).state@),
        ensures
            final(self).state@ == bingo_model(old(self).state@, pick as int, now),
            final(self).songbook_url == old(self).songbook_url,
            bingo_effects(effs@, old(self).state@, pick as int),
            nicks_distinct(final(self).state@.mode),
    {
        let ghost m = self.state@;
        proof {
            lemma_bingo_model_nicks_distinct(m, pick as int, now);
        }
        match self.state.pop_next_song_with(pick) {
            Some(song) => {
                self.state.mode = Mode::Bingo { nicks: Vec::new(), song: song.clone() };
                assert(names(Seq::<String>::empty()) =~= Seq::<Seq<char>>::empty());
                let mut effs: Vec<Effect> = Vec::new();
                effs.push(Effect::Persist);
                effs.push(music_effect(false));
                let shown = song.to_display_string();
                let mut spoken = String::new();
                push_str(&mut spoken, "Nästa sång kommer nu... ");
                push_str(&mut spoken, shown.as_str());
                assert(spoken@ =~= "Nästa sång kommer nu... "@ + shown@);
                effs.push(Effect::Send(Event::TextToSpeech(TextToSpeechAction::Speak { text: spoken, prio: Priority::High })));
                let mut text = String::new();
                push_str(&mut text, "Next song coming up: ");
                push_str(&mut text, shown.as_str());
                match &song.url {
                    Some(u) => {
                        push_str(&mut text, ". ");
                        push_str(&mut text, u.as_str());
                    },
                    None => {},
                }
                push_str(&mut text, "\nType bingo when you have found it!");
                assert(text@ =~= bingo_text(song));
                effs.push(Effect::Send(Event::Message(MessageAction::rich(text, RichContent::BingoAnnouncement { song }))));
                effs
            },
            None => {
                let mut effs: Vec<Effect> = Vec::new();
                effs.push(say_str("No songs found :(, add more songs: !request <url>"));
                let mut rest = self.enter_tempo_mode(now);
                let ghost first = effs@;
                let ghost tail = rest@;
                effs.append(&mut rest);
                proof {
                    let c0 = Cue::Say("No songs found :(, add more songs: !request <url>"@);
                    assert forall|i: int| 0 <= i < effs@.len() implies cue_ok(#[trigger] effs@[i], (seq![c0] + relax_cues())[i]) by {
                        if i > 0 {
                            assert(effs@[i] == tail[i - 1]);
                        }
                    }
                }
                effs
            },
        }
    }

    /// Takes the next song to sing, drawn at random among the requests (or
    /// the backup songs when there are none), and waits for everyone to find
    /// it; with no song left, says so and waits for tempo again.
    pub fn enter_bingo_mode(&mut self, now: u64) -> (effs: Vec<Effect>)
        ensures
            exists|pick: int|
                0 <= pick < pick_range(old(self).state@) && final(self).state@ == bingo_model(old(self).state@, pick, now)
                    && bingo_effects(effs@, old(self).state@, pick),
            final(self).songbook_url == old(self).songbook_url,
            nicks_distinct(final(self).state@.mode),
    {
        let n = self.state.pick_range();
        let pick = if n > 1 {
            random_below(n)
        } else {
            0
        };
        let effs = self.enter_bingo_mode_with(pick, now);
        assert(0 <= pick as int && (pick as int) < pick_range(old(self).state@));
        effs
    }

    /// Ends the party, unless already inactive.
    pub fn end(&mut self) -> (effs: Vec<Effect>)
        ensures
            old(self).state@.mode is Inactive ==> final(self).state@ == old(self).state@ && effs@.len() == 0,
            !(old(self).state@.mode is Inactive) ==> final(self).state@ == in_mode(old(self).state@, ModeView::Inactive)
                && follows(effs@, end_cues()),
            final(self).songbook_url == old(self).songbook_url,
    {
        if let Mode::Inactive = self.state.mode {
            return Vec::new();
        }
        let mut effs: Vec<Effect> = Vec::new();
        effs.push(say_str("Party is over. go drunk, you are home...."));
        let mut rest = self.enter_inactive_mode();
        let ghost tail = rest@;
        effs.append(&mut rest);
        proof {
            let c0 = Cue::Say("Party is over. go drunk, you are home...."@);
            assert forall|i: int| 0 <= i < effs@.len() implies cue_ok(#[trigger] effs@[i], (seq![c0] + relax_cues())[i]) by {
                if i > 0 {
                    assert(effs@[i] == tail[i - 1]);
                }
            }
        }
        effs
    }
}

/// Appends an effect that its cue expects.
fn push_cue(effs: &mut Vec<Effect>, e: Effect, Ghost(cues): Ghost<Seq<Cue>>, Ghost(c): Ghost<Cue>)
    requires
        follows(old(effs)@, cues),
        cue_ok(e, c),
    ensures
        final(effs)@ == old(effs)@.push(e),
        follows(final(effs)@, cues.push(c)),
{
    proof {
        lemma_follows_push(old(effs)@, cues, e, c);
    }
    effs.push(e);
}

/// A string made of two parts.
fn concat(a: &str, b: &str) -> (s: String)
    ensures
        s@ == a@ + b@,
{
    let mut s = String::new();
    push_str(&mut s, a);
    push_str(&mut s, b);
    assert(s@ =~= a@ + b@);
    s
}

/// The lines of the help text.
fn help_lines_vec(songbook_url: &str) -> (v: Vec<String>)
    ensures
        names(v@) == help_lines(songbook_url@),
{
    let rule = "===================================================================";
    let mut request = concat("Request a song you want to sing:          !request ", songbook_url);
    push_str(&mut request, "/tf-sangbok-150-teknologvisan");
    let mut v: Vec<String> = Vec::new();
    v.push(str_to_string(""));
    v.push(str_to_string(rule));
    v.push(str_to_string("Useful commands:"));
    v.push(str_to_string("Add a YouTube URL to the music queue:     !p https://youtu.be/dQw4w9WgXcQ"));
    v.push(str_to_string("Remove most recently queued music by you: !rm"));
    v.push(request);
    v.push(str_to_string("List current requests:                    !ls"));
    v.push(str_to_string("To say stuff, use:                        !speak hello world"));
    v.push(str_to_string("For help during the evening:              !help"));
    v.push(str_to_string("And the most important - to sing a song:  !tempo"));
    v.push(str_to_string(rule));
    assert(names(v@) =~= help_lines(songbook_url@));
    v
}

/// The lines of the welcome.
fn welcome_lines_vec(songbook_url: &str) -> (v: Vec<String>)
    ensures
        names(v@) == welcome_lines(songbook_url@),
{
    let rule = "===================================================================";
    let mut v: Vec<String> = Vec::new();
    v.push(str_to_string("irc-sitz-rs 2.0.0"));
    v.push(str_to_string(rule));
    v.push(str_to_string("Hi and welcome to this party. I will be your host today."));
    let mut help = help_lines_vec(songbook_url);
    let ghost head = v@;
    let ghost help_seq = help@;
    v.append(&mut help);
    v.push(str_to_string("Have fun, and don't drown in the shower!"));
    v.push(str_to_string(rule));
    proof {
        assert(names(head) =~= seq!["irc-sitz-rs 2.0.0"@, "==================================================================="@, "Hi and welcome to this party. I will be your host today."@]);
        assert(names(v@) =~= names(head) + names(help_seq) + seq!["Have fun, and don't drown in the shower!"@, "==================================================================="@]);
    }
    v
}

/// Lines joined with newlines.
fn join_lines_string(lines: &Vec<String>) -> (s: String)
    ensures
        s@ == join_lines(names(lines@)),
{
    let mut s = String::new();
    let mut i: usize = 0;
    while i < lines.len()
        invariant
            i <= lines@.len(),
            s@ == join_lines(names(lines@).take(i as int)),
        decreases lines.len() - i,
    {
        let ghost before = names(lines@).take(i as int);
        if i > 0 {
            push_str(&mut s, "\n");
        }
        push_str(&mut s, lines[i].as_str());
        proof {
            let after = names(lines@).take(i + 1);
            assert(after.drop_last() =~= before);
            if i == 0 {
                assert(before =~= Seq::<Seq<char>>::empty());
                assert(s@ =~= after[0]);
            } else {
                assert(s@ =~= join_lines(before) + "\n"@ + after.last());
            }
        }
        i = i + 1;
    }
    assert(names(lines@).take(lines@.len() as int) =~= names(lines@));
    s
}

/// A song of the party's songbook.
fn party_song(songbook_url: &str, title: &str, slug: &str, page: u64) -> (s: SongbookSong)
    ensures
        is_party_song(s, songbook_url@, title@, slug@, page as nat),
{
    let id = concat("tf-sangbok-150-", slug);
    let mut url = concat(songbook_url, "/");
    push_str(&mut url, id.as_str());
    let mut book = str_to_string("TF:s Sångbok 150 – s. ");
    push_decimal(&mut book, page);
    assert(book@ =~= "TF:s Sångbok 150 – s. "@ + crate::text::decimal(page as nat));
    assert(url@ =~= songbook_url@ + "/"@ + id@);
    SongbookSong { id, url: Some(url), title: Some(str_to_string(title)), book: Some(book), queued_by: None }
}

impl Songleader {
    /// Begins the party, from inactive mode only: sets up the songs, stops
    /// music and low priority speech, welcomes everyone, sings the opening
    /// verse and goes on to singing. The effects include the pauses of the
    /// routine; the application carries them out before handling anything
    /// else.
    pub fn begin(&mut self) -> (effs: Vec<Effect>)
        ensures
            old(self).state@.mode is Inactive ==> begun(final(self).state@, old(self).songbook_url@)
                && follows(effs@, begin_cues(old(self).songbook_url@)),
            !(old(self).state@.mode is Inactive) ==> final(self).state@ == old(self).state@
                && effs@.len() == 0,
            final(self).songbook_url == old(self).songbook_url,
    {
        if let Mode::Inactive = self.state.mode {
        } else {
            return Vec::new();
        }
        let ghost url = self.songbook_url@;
        self.state.mode = Mode::Starting;
        let mut effs: Vec<Effect> = Vec::new();
        let ghost mut cues: Seq<Cue> = Seq::empty();
        push_cue(&mut effs, music_effect(false), Ghost(cues), Ghost(music(false)));
        proof { cues = cues.push(music(false)); }
        push_cue(&mut effs, low_prio_effect(false), Ghost(cues), Ghost(low_prio_speech(false)));
        proof { cues = cues.push(low_prio_speech(false)); }

        let u = self.songbook_url.as_str();
        let mut first: VecDeque<SongbookSong> = VecDeque::new();
        first.push_back(party_song(u, "Halvankaren", "halvankaren", 39));
        first.push_back(party_song(u, "Fjärran han dröjer", "fjarran-han-drojer", 45));
        self.state.first_songs = first;
        self.state.requests = Vec::new();
        let mut backup: Vec<SongbookSong> = Vec::new();
        backup.push(party_song(u, "Rattataa", "rattataa", 0));
        backup.push(party_song(u, "Nu är det nu", "nu-ar-det-nu", 125));
        backup.push(party_song(u, "Mera brännvin", "mera-brannvin", 83));
        backup.push(party_song(u, "Tycker du som jag", "tycker-du-som-jag", 79));
        backup.push(party_song(u, "Siffervisan", "siffervisan", 115));
        backup.push(party_song(u, "Vad i allsin dar?", "vad-i-allsin-dar", 54));
        backup.push(party_song(u, "Undulaten", "undulaten", 72));
        self.state.backup = backup;

        push_cue(&mut effs, speech("Diii duuuu diii duuuu diii duuu"), Ghost(cues), Ghost(Cue::Speak("Diii duuuu diii duuuu diii duuu"@)));
        proof { cues = cues.push(Cue::Speak("Diii duuuu diii duuuu diii duuu"@)); }
        push_cue(&mut effs, Effect::Sleep { millis: 3000 }, Ghost(cues), Ghost(Cue::Wait(3000)));
        proof { cues = cues.push(Cue::Wait(3000)); }
        let ghost opening = cues;

        let lines = welcome_lines_vec(self.songbook_url.as_str());
        let mut i: usize = 0;
        while i < lines.len()
            invariant
                i <= lines@.len(),
                names(lines@) == welcome_lines(url),
                cues == opening + line_cues(names(lines@).take(i as int)),
                follows(effs@, cues),
            decreases lines.len() - i,
        {
            let ghost before = names(lines@).take(i as int);
            push_cue(&mut effs, say(lines[i].clone()), Ghost(cues), Ghost(Cue::Say(lines@[i as int]@)));
            proof { cues = cues.push(Cue::Say(lines@[i as int]@)); }
            push_cue(&mut effs, Effect::Sleep { millis: 1200 }, Ghost(cues), Ghost(Cue::Wait(1200)));
            proof {
                cues = cues.push(Cue::Wait(1200));
                let after = names(lines@).take(i + 1);
                assert(after.drop_last() =~= before);
                assert(cues =~= opening + line_cues(after));
            }
            i = i + 1;
        }
        assert(names(lines@).take(lines@.len() as int) =~= names(lines@));

        push_cue(&mut effs, Effect::Sleep { millis: 3000 }, Ghost(cues), Ghost(Cue::Wait(3000)));
        proof { cues = cues.push(Cue::Wait(3000)); }
        push_cue(&mut effs, say_str("*sjunger:*"), Ghost(cues), Ghost(Cue::Say("*sjunger:*"@)));
        proof { cues = cues.push(Cue::Say("*sjunger:*"@)); }
        let v0 = "En liten fågel satt en gång, och sjöng i furuskog.";
        let v1 = "Han hade sjungit dagen lång, men dock ej sjungit nog.";
        let v2 = "Vad sjöng den lilla fågeln då? JO!";
        push_cue(&mut effs, speech(v0), Ghost(cues), Ghost(Cue::Speak(verse(0))));
        proof { cues = cues.push(Cue::Speak(verse(0))); }
        push_cue(&mut effs, say_str(v0), Ghost(cues), Ghost(Cue::Say(verse(0))));
        proof { cues = cues.push(Cue::Say(verse(0))); }
        push_cue(&mut effs, Effect::Sleep { millis: 4000 }, Ghost(cues), Ghost(Cue::Wait(4000)));
        proof { cues = cues.push(Cue::Wait(4000)); }
        push_cue(&mut effs, speech(v1), Ghost(cues), Ghost(Cue::Speak(verse(1))));
        proof { cues = cues.push(Cue::Speak(verse(1))); }
        push_cue(&mut effs, say_str(v1), Ghost(cues), Ghost(Cue::Say(verse(1))));
        proof { cues = cues.push(Cue::Say(verse(1))); }
        push_cue(&mut effs, Effect::Sleep { millis: 4000 }, Ghost(cues), Ghost(Cue::Wait(4000)));
        proof { cues = cues.push(Cue::Wait(4000)); }
        push_cue(&mut effs, speech(v2), Ghost(cues), Ghost(Cue::Speak(verse(2))));
        proof { cues = cues.push(Cue::Speak(verse(2))); }
        push_cue(&mut effs, say_str(v2), Ghost(cues), Ghost(Cue::Say(verse(2))));
        proof { cues = cues.push(Cue::Say(verse(2))); }
        push_cue(&mut effs, Effect::Sleep { millis: 3000 }, Ghost(cues), Ghost(Cue::Wait(3000)));
        proof { cues = cues.push(Cue::Wait(3000)); }
        push_cue(&mut effs, say_str("Helan går..."), Ghost(cues), Ghost(Cue::Say("Helan går..."@)));
        proof { cues = cues.push(Cue::Say("Helan går..."@)); }
        push_cue(&mut effs, speech("Helan går"), Ghost(cues), Ghost(Cue::Speak("Helan går"@)));
        proof { cues = cues.push(Cue::Speak("Helan går"@)); }
        self.state.mode = Mode::Singing;
        push_cue(&mut effs, Effect::Persist, Ghost(cues), Ghost(persist()));
        proof {
            cues = cues.push(persist());
            assert(cues =~= begin_cues(url));
        }
        effs
    }
}

/// The song requests listed by title, separated by commas.
fn song_list_string(songs: &Vec<SongbookSong>) -> (s: String)
    ensures
        s@ == song_list_text(songs@),
{
    if songs.len() == 0 {
        return str_to_string("No requested songs found :(");
    }
    let mut s = str_to_string("Song requests: ");
    let mut i: usize = 0;
    while i < songs.len()
        invariant
            i <= songs@.len(),
            songs@.len() > 0,
            i == 0 ==> s@ == "Song requests: "@,
            i > 0 ==> s@ == "Song requests: "@ + join_titles(songs@.take(i as int)),
        decreases songs.len() - i,
    {
        let ghost before = songs@.take(i as int);
        if i > 0 {
            push_str(&mut s, ", ");
        }
        let t = songs[i].title_or_id();
        push_str(&mut s, t.as_str());
        proof {
            let after = songs@.take(i + 1);
            assert(after.drop_last() =~= before);
            if i == 0 {
                assert(s@ =~= "Song requests: "@ + join_titles(after));
            } else {
                assert(s@ =~= "Song requests: "@ + join_titles(after));
            }
        }
        i = i + 1;
    }
    assert(songs@.take(songs@.len() as int) =~= songs@);
    s
}

/// Whether the nick list with `nick` added reaches the threshold, and that
/// list.
fn add_nick(nicks: &Vec<String>, nick: String) -> (r: Vec<String>)
    ensures
        names(r@) == with_nick(names(nicks@), nick@),
{
    let mut r = clone_strings(nicks);
    if !has_name(&r, &nick) {
        r.push(nick);
        assert(names(r@) =~= names(nicks@).push(nick@));
    }
    r
}

impl Songleader {
    /// The confirmation of an added request, or the error.
    fn request_outcome(&mut self, song: SongbookSong) -> (effs: Vec<Effect>)
        ensures
            handled(old(self).state@, final(self).state@, SongleaderAction::RequestSong { song }, 0, 0, old(self).songbook_url@),
            handled_effects(effs@, old(self).state@, SongleaderAction::RequestSong { song }, 0, old(self).songbook_url@),
            final(self).songbook_url == old(self).songbook_url,
    {
        let mut effs: Vec<Effect> = Vec::new();
        match self.state.add_request(song) {
            Ok(song) => {
                effs.push(Effect::Persist);
                let mut text = str_to_string("Added ");
                let shown = song.to_display_string();
                push_str(&mut text, shown.as_str());
                push_str(&mut text, " to requests");
                assert(text@ =~= "Added "@ + display_text(song) + " to requests"@);
                effs.push(Effect::Send(Event::Message(MessageAction::rich(text, RichContent::SongRequestAdded { song }))));
            },
            Err(e) => {
                let mut text = str_to_string("Error while requesting song: ");
                let msg = e.message();
                push_str(&mut text, msg.as_str());
                let ghost c = Cue::Say("Error while requesting song: "@ + crate::songleader::error_text(SongleaderError::AlreadyRequested));
                assert(text@ =~= "Error while requesting song: "@ + crate::songleader::error_text(SongleaderError::AlreadyRequested));
                push_cue(&mut effs, say(text), Ghost(Seq::empty()), Ghost(c));
                assert(Seq::<Cue>::empty().push(c) =~= seq![c]);
            },
        }
        effs
    }

    /// The confirmation of a removed request, or the error.
    fn removal_outcome(removed: Result<SongbookSong, SongleaderError>) -> (effs: Vec<Effect>)
        ensures
            match removed {
                Ok(song) => effs@.len() == 2 && effs@[0] == Effect::Persist && is_request_removed(effs@[1], song),
                Err(e) => follows(effs@, seq![Cue::Say("Error while removing song: "@ + crate::songleader::error_text(e))]),
            },
    {
        let mut effs: Vec<Effect> = Vec::new();
        match removed {
            Ok(song) => {
                effs.push(Effect::Persist);
                let mut text = str_to_string("Removed ");
                let shown = song.to_display_string();
                push_str(&mut text, shown.as_str());
                push_str(&mut text, " from requests");
                assert(text@ =~= "Removed "@ + display_text(song) + " from requests"@);
                let title = song.title_or_id();
                effs.push(Effect::Send(Event::Message(MessageAction::rich(text, RichContent::SongRemoved { title }))));
            },
            Err(e) => {
                let mut text = str_to_string("Error while removing song: ");
                let msg = e.message();
                push_str(&mut text, msg.as_str());
                let ghost c = Cue::Say("Error while removing song: "@ + crate::songleader::error_text(e));
                assert(text@ =~= "Error while removing song: "@ + crate::songleader::error_text(e));
                push_cue(&mut effs, say(text), Ghost(Seq::empty()), Ghost(c));
                assert(Seq::<Cue>::empty().push(c) =~= seq![c]);
            },
        }
        effs
    }

    /// Handles one action at time `now` (milliseconds of the application's
    /// clock), `pick` choosing the next song where one is taken. Requests by
    /// URL are fetched by the application, which then calls
    /// [Songleader::add_fetched_request]; here they change nothing.
    pub fn handle_with(&mut self, action: SongleaderAction, now: u64, pick: usize) -> (effs: Vec<Effect>)
        requires
            pick < pick_range(old(self).state@),
        ensures
            handled(old(self).state@, final(self).state@, action, now, pick as int, old(self).songbook_url@),
            handled_effects(effs@, old(self).state@, action, pick as int, old(self).songbook_url@),
            final(self).songbook_url == old(self).songbook_url,
            nicks_distinct(old(self).state@.mode) ==> nicks_distinct(final(self).state@.mode),
    {
        let ghost m = self.state@;
        let effs = self.handle_action(action, now, pick);
        proof {
            if nicks_distinct(m.mode) {
                law_nicks_stay_distinct(m, self.state@, action, now, pick as int, old(self).songbook_url@);
            }
        }
        effs
    }

    fn handle_action(&mut self, action: SongleaderAction, now: u64, pick: usize) -> (effs: Vec<Effect>)
        requires
            pick < pick_range(old(self).state@),
        ensures
            handled(old(self).state@, final(self).state@, action, now, pick as int, old(self).songbook_url@),
            handled_effects(effs@, old(self).state@, action, pick as int, old(self).songbook_url@),
            final(self).songbook_url == old(self).songbook_url,
    {
        let ghost m = self.state@;
        match action {
            SongleaderAction::RequestSongUrl { .. } => Vec::new(),
            SongleaderAction::RequestSong { song } => self.request_outcome(song),
            SongleaderAction::RmSongById { id } => {
                let ghost key = id@;
                let removed = self.state.rm_song_by_id(id);
                assert("Error while removing song: "@ + ("Song not found by id "@ + key) =~= "Error while removing song: "@ + "Song not found by id "@ + key);
                Self::removal_outcome(removed)
            },
            SongleaderAction::RmSongByNick { nick } => {
                let ghost who = nick@;
                let removed = self.state.rm_song_by_nick(nick);
                assert("Error while removing song: "@ + ("No song requests found by "@ + who) =~= "Error while removing song: "@ + "No song requests found by "@ + who);
                Self::removal_outcome(removed)
            },
            SongleaderAction::Tempo { nick } => {
                if let Mode::Tempo { nicks, init_t } = &self.state.mode {
                    let t = *init_t;
                    let n2 = add_nick(nicks, nick);
                    if n2.len() >= NUM_TEMPO_NICKS {
                        self.enter_bingo_mode_with(pick, now)
                    } else {
                        self.state.mode = Mode::Tempo { nicks: n2, init_t: t };
                        let mut effs: Vec<Effect> = Vec::new();
                        push_cue(&mut effs, Effect::Persist, Ghost(Seq::empty()), Ghost(persist()));
                        assert(Seq::<Cue>::empty().push(persist()) =~= seq![persist()]);
                        effs
                    }
                } else {
                    Vec::new()
                }
            },
            SongleaderAction::Bingo { nick } => {
                if let Mode::Bingo { nicks, song } = &self.state.mode {
                    let current = song.clone();
                    let n2 = add_nick(nicks, nick);
                    if n2.len() >= NUM_BINGO_NICKS {
                        self.enter_singing_mode()
                    } else {
                        self.state.mode = Mode::Bingo { nicks: n2, song: current };
                        let mut effs: Vec<Effect> = Vec::new();
                        push_cue(&mut effs, Effect::Persist, Ghost(Seq::empty()), Ghost(persist()));
                        assert(Seq::<Cue>::empty().push(persist()) =~= seq![persist()]);
                        effs
                    }
                } else {
                    Vec::new()
                }
            },
            SongleaderAction::Skal => {
                if let Mode::Singing = self.state.mode {
                    self.enter_tempo_mode(now)
                } else {
                    Vec::new()
                }
            },
            SongleaderAction::ListSongs => {
                let songs = self.state.get_songs();
                let text = song_list_string(&songs);
                let mut effs: Vec<Effect> = Vec::new();
                effs.push(Effect::Send(Event::Message(MessageAction::rich(text, RichContent::SongRequestList { songs }))));
                effs
            },
            SongleaderAction::ForceTempo => self.enter_tempo_mode(now),
            SongleaderAction::ForceBingo => self.enter_bingo_mode_with(pick, now),
            SongleaderAction::ForceSinging => self.enter_singing_mode(),
            SongleaderAction::Pause => self.enter_inactive_mode(),
            SongleaderAction::End => self.end(),
            SongleaderAction::Begin => self.begin(),
            SongleaderAction::Help => {
                let allowed = match self.state.mode {
                    Mode::Tempo { .. } => true,
                    Mode::Inactive => true,
                    _ => false,
                };
                if !allowed {
                    return Vec::new();
                }
                let lines = help_lines_vec(self.songbook_url.as_str());
                let text = join_lines_string(&lines);
                let mut effs: Vec<Effect> = Vec::new();
                effs.push(Effect::Send(Event::Message(MessageAction::rich(text, RichContent::Help { songbook_url: self.songbook_url.clone() }))));
                effs
            },
        }
    }

    /// Handles one action at time `now`; where a song is taken, the request
    /// or backup song is drawn at random.
    pub fn handle_incoming_event(&mut self, action: SongleaderAction, now: u64) -> (effs: Vec<Effect>)
        ensures
            exists|pick: int|
                0 <= pick < pick_range(old(self).state@) && handled(old(self).state@, final(self).state@, action, now, pick, old(self).songbook_url@)
                    && handled_effects(effs@, old(self).state@, action, pick, old(self).songbook_url@),
            final(self).songbook_url == old(self).songbook_url,
            nicks_distinct(old(self).state@.mode) ==> nicks_distinct(final(self).state@.mode),
    {
        let n = self.state.pick_range();
        let pick = if n > 1 {
            random_below(n)
        } else {
            0
        };
        let effs = self.handle_with(action, now, pick);
        assert(0 <= pick as int && (pick as int) < pick_range(old(self).state@));
        effs
    }

    /// Whether the tempo deadline has passed at time `now`.
    pub fn tempo_timed_out(&self, now: u64) -> (b: bool)
        ensures
            b == tempo_expired(self.state@.mode, now),
    {
        match &self.state.mode {
            Mode::Tempo { nicks, init_t } => {
                (now as u128) + 60000 * (nicks.len() as u128) > (*init_t as u128) + 420000
            },
            _ => false,
        }
    }

    /// Moves on to bingo mode when the tempo deadline has passed at `now`,
    /// `pick` choosing the next song.
    pub fn check_tempo_timeout_with(&mut self, now: u64, pick: usize) -> (effs: Vec<Effect>)
        requires
            pick < pick_range(old(self).state@),
        ensures
            tempo_expired(old(self).state@.mode, now) ==> final(self).state@ == bingo_model(old(self).state@, pick as int, now)
                && bingo_effects(effs@, old(self).state@, pick as int),
            !tempo_expired(old(self).state@.mode, now) ==> final(self).state@ == old(self).state@
                && effs@.len() == 0,
            final(self).songbook_url == old(self).songbook_url,
            nicks_distinct(old(self).state@.mode) ==> nicks_distinct(final(self).state@.mode),
    {
        if self.tempo_timed_out(now) {
            self.enter_bingo_mode_with(pick, now)
        } else {
            Vec::new()
        }
    }

    /// Moves on to bingo mode when the tempo deadline has passed at `now`,
    /// drawing the next song at random.
    pub fn check_tempo_timeout(&mut self, now: u64) -> (effs: Vec<Effect>)
        ensures
            tempo_expired(old(self).state@.mode, now) ==> exists|pick: int|
                0 <= pick < pick_range(old(self).state@) && final(self).state@ == bingo_model(old(self).state@, pick, now)
                    && bingo_effects(effs@, old(self).state@, pick),
            !tempo_expired(old(self).state@.mode, now) ==> final(self).state@ == old(self).state@
                && effs@.len() == 0,
            final(self).songbook_url == old(self).songbook_url,
            nicks_distinct(old(self).state@.mode) ==> nicks_distinct(final(self).state@.mode),
    {
        let n = self.state.pick_range();
        let pick = if n > 1 {
            random_below(n)
        } else {
            0
        };
        let effs = self.check_tempo_timeout_with(now, pick);
        assert(0 <= pick as int && (pick as int) < pick_range(old(self).state@));
        effs
    }

    /// Adds a song requested by URL once the application has fetched it, or
    /// reports why it could not be fetched.
    pub fn add_fetched_request(&mut self, fetched: Result<SongbookSong, String>) -> (effs: Vec<Effect>)
        ensures
            match fetched {
                Ok(song) => handled(old(self).state@, final(self).state@, SongleaderAction::RequestSong { song }, 0, 0, old(self).songbook_url@)
                    && handled_effects(effs@, old(self).state@, SongleaderAction::RequestSong { song }, 0, old(self).songbook_url@),
                Err(msg) => final(self).state@ == old(self).state@
                    && follows(effs@, seq![Cue::Say("Error while requesting song: "@ + msg@)]),
            },
            final(self).songbook_url == old(self).songbook_url,
            nicks_distinct(old(self).state@.mode) ==> nicks_distinct(final(self).state@.mode),
    {
        match fetched {
            Ok(song) => self.request_outcome(song),
            Err(msg) => {
                let mut text = str_to_string("Error while requesting song: ");
                push_str(&mut text, msg.as_str());
                let ghost c = Cue::Say("Error while requesting song: "@ + msg@);
                assert(text@ =~= "Error while requesting song: "@ + msg@);
                let mut effs: Vec<Effect> = Vec::new();
                push_cue(&mut effs, say(text), Ghost(Seq::empty()), Ghost(c));
                assert(Seq::<Cue>::empty().push(c) =~= seq![c]);
                effs
            },
        }
    }
}

} // verus!
