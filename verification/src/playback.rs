//! The music queue: enqueueing, skipping, removing and voting.

use vstd::prelude::*;

use crate::event::{is_bot_text, Effect, Event};
use crate::message::{MessageAction, NowPlayingInfo, RichContent};
use crate::playback_model::{
    clock, is_queue_status, lemma_total_prefix, lemma_total_upcoming,
    play_song_effects, end_of_queue_effects, best_index, next_model, next_effects,
    within_limits, after_current, promote, ids, lemma_total_drop_first, lemma_total_push,
    lemma_total_nonneg, lemma_total_remove, lemma_total_front, prev_model, prev_effects,
    in_queue, enqueue_model, enqueue_effects, enqueued_text, remove_model, remove_effects,
    is_removed_msg, rm_at_pos_model, rm_at_pos_effects, no_song_at_text, last_queued_by,
    rm_by_nick_model, rm_by_nick_effects, own_song, upvote_model, downvote_model,
    remove_upvote_model, remove_downvote_model, persist_only, handle_model, handle_effects,
    action_within_limits, play_model, song_ended, score_at, in_vote_order,
    lemma_vote_order_insert, sorted_upcoming, vote_before, lists, lists_position, lemma_listed_len, queue_len, queue_mins, song_line, song_line_at,
    started, status_text, stopped, total_duration, upcoming, PlaybackModel,
};
use crate::sources::symphonia::SymphoniaAction;
use crate::text::{push_decimal, push_str, push_two_digits, str_to_string};
use crate::votes::{votes_in, VoteTable};

verus! {

/// Longest song (in seconds) that may be requested: ten minutes.
pub const MAX_SONG_DURATION_SECS: u64 = 600;

/// A copy of a list of strings.
pub fn clone_strings(v: &Vec<String>) -> (r: Vec<String>)
    ensures
        r@ == v@,
{
    let mut r: Vec<String> = Vec::new();
    let mut i: usize = 0;
    while i < v.len()
        invariant
            i <= v.len(),
            r@ =~= v@.take(i as int),
        decreases v.len() - i,
    {
        r.push(v[i].clone());
        i = i + 1;
    }
    assert(v@.take(v.len() as int) =~= v@);
    r
}

/// Votes for a song in the queue.
#[derive(Debug)]
pub struct SongVotes {
    /// Users who upvoted (moves the song up in the queue).
    pub upvotes: Vec<String>,
    /// Users who downvoted (moves the song down in the queue).
    pub downvotes: Vec<String>,
}

/// The users that upvoted and downvoted a song, in voting order.
#[verifier::ext_equal]
pub struct VotesView {
    pub up: Seq<Seq<char>>,
    pub down: Seq<Seq<char>>,
}

/// The names in a list of user names.
pub open spec fn names(v: Seq<String>) -> Seq<Seq<char>> {
    v.map_values(|s: String| s@)
}

impl View for SongVotes {
    type V = VotesView;

    open spec fn view(&self) -> VotesView {
        VotesView { up: names(self.upvotes@), down: names(self.downvotes@) }
    }
}

impl Clone for SongVotes {
    fn clone(&self) -> (r: Self)
        ensures
            r@ == self@,
            r.upvotes@ == self.upvotes@,
            r.downvotes@ == self.downvotes@,
    {
        SongVotes { upvotes: clone_strings(&self.upvotes), downvotes: clone_strings(&self.downvotes) }
    }
}

impl Default for SongVotes {
    fn default() -> (r: Self)
        ensures
            r.upvotes@ == Seq::<String>::empty(),
            r.downvotes@ == Seq::<String>::empty(),
            r@ == empty_votes(),
    {
        let r = SongVotes { upvotes: Vec::new(), downvotes: Vec::new() };
        assert(r@.up =~= Seq::<Seq<char>>::empty());
        assert(r@.down =~= Seq::<Seq<char>>::empty());
        r
    }
}

/// No votes at all.
pub open spec fn empty_votes() -> VotesView {
    VotesView { up: Seq::empty(), down: Seq::empty() }
}

/// Net vote score of a vote record: upvotes minus downvotes.
pub open spec fn score_of(v: VotesView) -> int {
    v.up.len() - v.down.len()
}

impl SongVotes {
    /// Net vote score: upvotes minus downvotes.
    pub fn score(&self) -> (s: i32)
        requires
            self.upvotes.len() <= i32::MAX,
            self.downvotes.len() <= i32::MAX,
        ensures
            s == self.upvotes.len() - self.downvotes.len(),
    {
        self.upvotes.len() as i32 - self.downvotes.len() as i32
    }
}

/// A song in the music queue. Two songs are the same song when their ids
/// are equal, whatever the other fields hold.
#[derive(Debug)]
pub struct Song {
    pub id: String,
    pub url: String,
    pub title: String,
    pub channel: String,
    pub duration: u64,
    pub queued_by: String,
}

impl Clone for Song {
    fn clone(&self) -> (r: Self)
        ensures
            r == *self,
    {
        Song {
            id: self.id.clone(),
            url: self.url.clone(),
            title: self.title.clone(),
            channel: self.channel.clone(),
            duration: self.duration,
            queued_by: self.queued_by.clone(),
        }
    }
}

impl PartialEq for Song {
    fn eq(&self, other: &Self) -> (r: bool) {
        self.id == other.id
    }
}

impl vstd::std_specs::cmp::PartialEqSpecImpl for Song {
    open spec fn obeys_eq_spec() -> bool {
        true
    }

    open spec fn eq_spec(&self, other: &Self) -> bool {
        self.id@ == other.id@
    }
}

#[derive(Clone, Debug)]
pub enum PlaybackAction {
    /// Add a song at the end of the queue.
    Enqueue { song: Song },
    /// The player reached the end of the song.
    EndOfSong,
    /// List either the first items of the queue or the item at a position.
    ListQueue { offset: Option<usize> },
    /// Remove the song at a position.
    RmSongByPos { pos: usize },
    /// Remove the latest song queued by a nick.
    RmSongByNick { nick: String },
    /// Resume playback.
    Play,
    /// Pause playback.
    Pause,
    /// Play the previous song.
    Prev,
    /// Play the next song.
    Next,
    /// Playback has progressed to a position (seconds).
    PlaybackProgress { position: u64 },
    /// Upvote a song (moves it up in the queue).
    Upvote { song_id: String, user: String },
    /// Downvote a song (moves it down in the queue).
    Downvote { song_id: String, user: String },
    /// Take back an upvote.
    RemoveUpvote { song_id: String, user: String },
    /// Take back a downvote.
    RemoveDownvote { song_id: String, user: String },
}

/// The state of the music queue, as saved between runs.
pub struct PlaybackState {
    pub played_songs: Vec<Song>,
    pub queued_songs: Vec<Song>,
    /// Votes for songs in the queue, by song id.
    pub song_votes: VoteTable,
    /// Whether the player has a song loaded.
    pub song_loaded: bool,
    /// Whether a song is being played right now.
    pub is_playing: bool,
    /// Whether to start playing when a song is enqueued into an empty queue.
    pub should_play: bool,
    /// Progress of the current song in seconds.
    pub playback_progress: u64,
}

impl View for PlaybackState {
    type V = PlaybackModel;

    open spec fn view(&self) -> PlaybackModel {
        PlaybackModel {
            played: self.played_songs@,
            queued: self.queued_songs@,
            votes: self.song_votes@,
            song_loaded: self.song_loaded,
            is_playing: self.is_playing,
            should_play: self.should_play,
            progress: self.playback_progress,
        }
    }
}

impl Default for PlaybackState {
    fn default() -> (r: Self)
        ensures
            r@ == (PlaybackModel {
                played: Seq::empty(),
                queued: Seq::empty(),
                votes: Map::empty(),
                song_loaded: false,
                is_playing: false,
                should_play: true,
                progress: 0,
            }),
    {
        let r = PlaybackState {
            played_songs: Vec::new(),
            queued_songs: Vec::new(),
            song_votes: VoteTable::new(),
            song_loaded: false,
            is_playing: false,
            should_play: true,
            playback_progress: 0,
        };
        assert(r@ =~= (PlaybackModel {
            played: Seq::empty(),
            queued: Seq::empty(),
            votes: Map::empty(),
            song_loaded: false,
            is_playing: false,
            should_play: true,
            progress: 0,
        }));
        r
    }
}

/// Sum of the durations of the songs after the current one.
fn upcoming_secs(q: &Vec<Song>) -> (t: u64)
    requires
        total_duration(q@) <= u64::MAX,
    ensures
        t == total_duration(upcoming(q@)),
{
    proof {
        lemma_total_upcoming(q@);
    }
    if q.len() == 0 {
        return 0;
    }
    let ghost up = upcoming(q@);
    let mut sum: u64 = 0;
    let mut i: usize = 1;
    while i < q.len()
        invariant
            1 <= i <= q@.len(),
            up == q@.drop_first(),
            total_duration(up) <= u64::MAX,
            sum == total_duration(up.take(i - 1)),
        decreases q.len() - i,
    {
        proof {
            assert(up.take(i as int).drop_last() =~= up.take(i - 1));
            assert(up.take(i as int).last() == q@[i as int]);
            lemma_total_prefix(up, i as int);
        }
        sum = sum + q[i].duration;
        i = i + 1;
    }
    assert(up.take(i - 1) =~= up);
    sum
}

/// Appends how a song is shown in listings.
fn push_song_line(s: &mut String, song: &Song)
    ensures
        final(s)@ == old(s)@ + song_line(*song),
{
    push_str(s, song.title.as_str());
    push_str(s, " (");
    push_str(s, song.url.as_str());
    push_str(s, ", queued by ");
    push_str(s, song.queued_by.as_str());
    push_str(s, ")");
    assert(final(s)@ =~= old(s)@ + song_line(*song));
}

/// Appends the song at position `i` as shown in listings.
fn push_song_line_at(s: &mut String, q: &Vec<Song>, i: usize)
    ensures
        final(s)@ == old(s)@ + song_line_at(q@, i as int),
{
    if i < q.len() {
        push_song_line(s, &q[i]);
    } else {
        push_str(s, "(nothing)");
    }
}

/// Appends `m:ss` for a number of seconds.
fn push_clock(s: &mut String, secs: u64)
    ensures
        final(s)@ == old(s)@ + clock(secs),
{
    push_decimal(s, secs / 60);
    push_str(s, ":");
    push_two_digits(s, secs % 60);
    assert(final(s)@ =~= old(s)@ + clock(secs));
}

/// A plain message from the bot.
fn bot_text(text: String) -> (e: Effect)
    ensures
        is_bot_text(e, text@),
{
    Effect::Send(Event::Message(MessageAction::bot_say(text)))
}

/// The music queue: the songs to play, the votes that reorder them and the
/// player's status.
pub struct Playback {
    pub state: PlaybackState,
}

impl Playback {
    /// Number of songs waiting after the current one.
    pub fn queue_len(&self) -> (n: usize)
        ensures
            n == queue_len(self.state.queued_songs@),
    {
        if self.state.queued_songs.len() == 0 {
            0
        } else {
            self.state.queued_songs.len() - 1
        }
    }

    /// Whole minutes of music waiting after the current song.
    pub fn queue_duration_mins(&self) -> (m: u64)
        requires
            total_duration(self.state.queued_songs@) <= u64::MAX,
        ensures
            m == queue_mins(self.state.queued_songs@),
    {
        upcoming_secs(&self.state.queued_songs) / 60
    }

    /// The text of a queue listing.
    fn status_text(&self, offset: Option<usize>) -> (s: String)
        requires
            total_duration(self.state.queued_songs@) <= u64::MAX,
        ensures
            s@ == status_text(self.state@, offset),
    {
        let q = &self.state.queued_songs;
        let mut s = String::new();
        if q.len() == 0 {
            push_str(&mut s, "Queue is empty!");
        } else {
            match offset {
                Some(o) => {
                    push_str(&mut s, "Song at position ");
                    push_decimal(&mut s, o as u64);
                    push_str(&mut s, ": ");
                    push_song_line_at(&mut s, q, o);
                },
                None => {
                    if self.state.is_playing {
                        push_str(&mut s, "Now playing");
                    } else {
                        push_str(&mut s, "Paused");
                    }
                    push_str(&mut s, " (");
                    push_clock(&mut s, self.state.playback_progress);
                    push_str(&mut s, "/");
                    push_clock(&mut s, q[0].duration);
                    push_str(&mut s, "): ");
                    push_song_line(&mut s, &q[0]);
                    push_str(&mut s, ", next up: ");
                    push_song_line_at(&mut s, q, 1);
                    push_str(&mut s, ". Queue length: ");
                    let len = self.queue_len();
                    push_decimal(&mut s, len as u64);
                    push_str(&mut s, " songs (");
                    let mins = self.queue_duration_mins();
                    push_decimal(&mut s, mins);
                    push_str(&mut s, " min)");
                },
            }
        }
        assert(s@ =~= status_text(self.state@, offset));
        s
    }

    /// The queue listing as an effect: the whole queue when `offset` is
    /// `None`, else the song at that position.
    pub fn list_queue(&self, offset: Option<usize>) -> (e: Effect)
        requires
            total_duration(self.state.queued_songs@) <= u64::MAX,
        ensures
            is_queue_status(e, self.state@, offset),
    {
        let q = &self.state.queued_songs;
        let text = self.status_text(offset);
        let now_playing = if q.len() > 0 {
            Some(NowPlayingInfo { song: q[0].clone(), progress_secs: self.state.playback_progress })
        } else {
            None
        };
        let next_up = if q.len() > 1 {
            Some(q[1].clone())
        } else {
            None
        };
        let rich = RichContent::QueueStatus {
            now_playing,
            next_up,
            queue_length: self.queue_len(),
            queue_duration_mins: self.queue_duration_mins(),
            is_playing: self.state.is_playing,
        };
        Effect::Send(Event::Message(MessageAction::rich(text, rich)))
    }

    /// Starts playing `song` from its beginning.
    fn play_song(&mut self, song: Song) -> (effs: Vec<Effect>)
        requires
            total_duration(old(self).state.queued_songs@) <= u64::MAX,
        ensures
            final(self).state@ == started(old(self).state@),
            play_song_effects(effs@, started(old(self).state@), song),
    {
        self.state.is_playing = true;
        self.state.song_loaded = true;
        self.state.playback_progress = 0;
        let mut effs: Vec<Effect> = Vec::new();
        effs.push(Effect::Send(Event::Symphonia(SymphoniaAction::PlayYtUrl { url: song.url })));
        effs.push(self.list_queue(None));
        effs.push(Effect::Persist);
        assert(self.state@ =~= started(old(self).state@));
        effs
    }

    /// Stops playback at the end of the queue.
    fn end_of_queue(&mut self) -> (effs: Vec<Effect>)
        ensures
            final(self).state@ == stopped(old(self).state@),
            end_of_queue_effects(effs@),
    {
        self.state.is_playing = false;
        let mut effs: Vec<Effect> = Vec::new();
        effs.push(Effect::Send(Event::Symphonia(SymphoniaAction::Stop)));
        let mut text = String::new();
        push_str(&mut text, "Playback queue ended.");
        assert(text@ =~= "Playback queue ended."@);
        effs.push(bot_text(text));
        effs.push(Effect::Persist);
        assert(self.state@ =~= stopped(old(self).state@));
        effs
    }

    /// Position of the best-voted song of the queue: the highest score,
    /// the earliest among equal scores.
    fn best_position(&self) -> (b: usize)
        requires
            self.state.queued_songs@.len() > 0,
        ensures
            b == best_index(self.state.queued_songs@, self.state.song_votes@, self.state.queued_songs@.len() as int),
            b < self.state.queued_songs@.len(),
    {
        let q = &self.state.queued_songs;
        let votes = &self.state.song_votes;
        let mut best: usize = 0;
        let (mut best_up, mut best_down) = votes.counts(&q[0].id);
        let mut i: usize = 1;
        while i < q.len()
            invariant
                1 <= i <= q@.len(),
                best < i,
                best == best_index(q@, votes@, i as int),
                best_up == votes_in(votes@, q@[best as int].id@).up.len(),
                best_down == votes_in(votes@, q@[best as int].id@).down.len(),
            decreases q.len() - i,
        {
            let (up, down) = votes.counts(&q[i].id);
            if (up as u128) + (best_down as u128) > (best_up as u128) + (down as u128) {
                best = i;
                best_up = up;
                best_down = down;
            }
            i = i + 1;
        }
        best
    }

    /// Advances to the next song. The current song leaves the queue (and
    /// goes to the played songs unless `remove_current`), votes of songs no
    /// longer queued are dropped, and the best-voted upcoming song moves to
    /// the front and starts; with no song left, playback stops.
    pub fn next(&mut self, remove_current: bool) -> (effs: Vec<Effect>)
        requires
            within_limits(old(self).state@),
        ensures
            final(self).state@ == next_model(old(self).state@, remove_current),
            next_effects(effs@, old(self).state@, remove_current),
            within_limits(final(self).state@),
    {
        let ghost m = self.state@;
        if self.state.queued_songs.len() > 0 {
            proof {
                lemma_total_drop_first(m.queued);
                lemma_total_push(m.played, m.queued[0]);
                lemma_total_nonneg(m.queued);
                lemma_total_nonneg(m.played);
                lemma_total_nonneg(m.queued.drop_first());
            }
            let song = self.state.queued_songs.remove(0);
            assert(self.state.queued_songs@ =~= m.queued.drop_first());
            self.state.song_votes.remove(&song.id);
            if !remove_current {
                self.state.played_songs.push(song);
            }
        }
        let ids = song_ids(&self.state.queued_songs);
        self.state.song_votes.retain_ids(&ids);
        let ghost r = self.state@;
        assert(r =~= after_current(m, remove_current));
        let mut effs: Vec<Effect>;
        if self.state.queued_songs.len() == 0 {
            effs = self.end_of_queue();
        } else {
            let best = self.best_position();
            if best > 0 {
                let promoted = self.state.queued_songs.remove(best);
                self.state.queued_songs.insert(0, promoted);
                proof {
                    lemma_total_remove(r.queued, best as int);
                    lemma_total_front(r.queued.remove(best as int), r.queued[best as int]);
                }
            }
            assert(self.state.queued_songs@ =~= promote(r.queued, best as int));
            let song = self.state.queued_songs[0].clone();
            effs = self.play_song(song);
        }
        effs.push(Effect::Persist);
        assert(self.state@ =~= next_model(m, remove_current));
        assert(effs@.take(3) =~= effs@.drop_last());
        effs
    }

    /// Goes back to the previous song: the last played song returns to the
    /// front of the queue and starts; with none, playback stops.
    pub fn prev(&mut self) -> (effs: Vec<Effect>)
        requires
            within_limits(old(self).state@),
        ensures
            final(self).state@ == prev_model(old(self).state@),
            prev_effects(effs@, old(self).state@),
            within_limits(final(self).state@),
    {
        let ghost m = self.state@;
        let mut effs: Vec<Effect>;
        match self.state.played_songs.pop() {
            Some(song) => {
                proof {
                    assert(m.played =~= m.played.drop_last().push(m.played.last()));
                    lemma_total_push(m.played.drop_last(), m.played.last());
                    lemma_total_front(m.queued, m.played.last());
                    lemma_total_nonneg(m.played.drop_last());
                }
                self.state.queued_songs.insert(0, song.clone());
                assert(self.state.queued_songs@ =~= seq![m.played.last()] + m.queued);
                effs = self.play_song(song);
            },
            None => {
                effs = self.end_of_queue();
            },
        }
        effs.push(Effect::Persist);
        assert(self.state@ =~= prev_model(m));
        assert(effs@.take(3) =~= effs@.drop_last());
        effs
    }

    /// Whether a song with the same id as `song` is queued.
    fn is_queued(&self, song: &Song) -> (b: bool)
        ensures
            b == in_queue(self.state.queued_songs@, *song),
    {
        let q = &self.state.queued_songs;
        let mut i: usize = 0;
        while i < q.len()
            invariant
                i <= q@.len(),
                q@ == self.state@.queued,
                forall|j: int| 0 <= j < i ==> (#[trigger] q@[j]).id@ != song.id@,
            decreases q.len() - i,
        {
            if q[i].id == song.id {
                assert(q@[i as int].id@ == song.id@);
                assert(in_queue(q@, *song));
                return true;
            }
            i = i + 1;
        }
        false
    }

    /// Adds a song at the end of the queue, unless a song with the same id
    /// is already queued. A song enqueued into an empty queue starts right
    /// away when playback is wanted and nothing plays.
    pub fn enqueue(&mut self, song: Song) -> (effs: Vec<Effect>)
        requires
            within_limits(old(self).state@),
            total_duration(old(self).state@.played) + total_duration(old(self).state@.queued)
                + song.duration <= u64::MAX,
        ensures
            final(self).state@ == enqueue_model(old(self).state@, song),
            enqueue_effects(effs@, old(self).state@, song),
            within_limits(final(self).state@),
    {
        let ghost m = self.state@;
        let mut effs: Vec<Effect> = Vec::new();
        if self.is_queued(&song) {
            let mut text = String::new();
            push_str(&mut text, "Song already in queue!");
            assert(text@ =~= "Song already in queue!"@);
            effs.push(bot_text(text));
            return effs;
        }
        let queue_was_empty = self.state.queued_songs.len() == 0;
        proof {
            lemma_total_nonneg(m.played);
        }
        let time_until_playback = self.queue_duration_mins();
        proof {
            lemma_total_push(m.queued, song);
            lemma_total_nonneg(m.played);
        }
        self.state.queued_songs.push(song.clone());
        let mut text = String::new();
        push_str(&mut text, "Added ");
        push_str(&mut text, song.title.as_str());
        push_str(&mut text, " (");
        push_str(&mut text, song.url.as_str());
        push_str(&mut text, ") to the queue (queued by ");
        push_str(&mut text, song.queued_by.as_str());
        push_str(&mut text, "). Time until playback: ");
        push_decimal(&mut text, time_until_playback);
        push_str(&mut text, " min");
        assert(text@ =~= enqueued_text(song, queue_mins(m.queued)));
        let rich = RichContent::SongEnqueued {
            song: song.clone(),
            time_until_playback_mins: time_until_playback,
        };
        effs.push(Effect::Send(Event::Message(MessageAction::rich(text, rich))));
        if !self.state.is_playing && self.state.should_play && queue_was_empty {
            let mut started_effs = self.play_song(song);
            let ghost started_seq = started_effs@;
            effs.append(&mut started_effs);
            effs.push(Effect::Persist);
            assert(effs@.subrange(1, 4) =~= started_seq);
        } else {
            effs.push(Effect::Persist);
        }
        assert(self.state@ =~= enqueue_model(m, song));
        effs
    }

    /// Removes the song at position `i`; removing the current song skips
    /// to the next one.
    fn remove_at(&mut self, i: usize) -> (effs: Vec<Effect>)
        requires
            within_limits(old(self).state@),
            i < old(self).state@.queued.len(),
        ensures
            final(self).state@ == remove_model(old(self).state@, i as int),
            remove_effects(effs@, old(self).state@, i as int),
            within_limits(final(self).state@),
    {
        let ghost m = self.state@;
        if i == 0 {
            let title = self.state.queued_songs[0].title.clone();
            let mut effs = self.next(true);
            effs.push(removed_msg(title));
            assert(effs@.take(4) =~= effs@.drop_last());
            effs
        } else {
            proof {
                lemma_total_remove(m.queued, i as int);
                lemma_total_nonneg(m.queued.remove(i as int));
            }
            let song = self.state.queued_songs.remove(i);
            let mut effs: Vec<Effect> = Vec::new();
            effs.push(removed_msg(song.title));
            assert(self.state@ =~= remove_model(m, i as int));
            effs
        }
    }

    /// Removes the song at position `pos` of the queue. Position 0 skips to
    /// the next song, even when the queue is empty.
    pub fn rm_song_at_pos(&mut self, pos: usize) -> (effs: Vec<Effect>)
        requires
            within_limits(old(self).state@),
        ensures
            final(self).state@ == rm_at_pos_model(old(self).state@, pos),
            rm_at_pos_effects(effs@, old(self).state@, pos),
            within_limits(final(self).state@),
    {
        if pos < self.state.queued_songs.len() {
            self.remove_at(pos)
        } else if pos == 0 {
            let mut effs = self.next(true);
            effs.push(bot_text(no_song_at(0)));
            assert(effs@.take(4) =~= effs@.drop_last());
            effs
        } else {
            let mut effs: Vec<Effect> = Vec::new();
            effs.push(bot_text(no_song_at(pos)));
            effs
        }
    }

    /// Position of the latest song queued by `nick`.
    fn last_position_by(&self, nick: &String) -> (r: Option<usize>)
        ensures
            match last_queued_by(self.state@.queued, nick@, self.state@.queued.len() as int) {
                Some(i) => r matches Some(k) && k == i && i < self.state@.queued.len(),
                None => r is None,
            },
    {
        let q = &self.state.queued_songs;
        let mut n: usize = q.len();
        while n > 0
            invariant
                n <= q@.len(),
                q@ == self.state@.queued,
                last_queued_by(q@, nick@, q@.len() as int) == last_queued_by(q@, nick@, n as int),
            decreases n,
        {
            if q[n - 1].queued_by == *nick {
                assert(q@[n - 1].queued_by@ == nick@);
                assert(last_queued_by(q@, nick@, n as int) == Some(n - 1));
                return Some(n - 1);
            }
            n = n - 1;
        }
        None
    }

    /// Removes the latest song queued by `nick`.
    pub fn rm_latest_song_by_nick(&mut self, nick: String) -> (effs: Vec<Effect>)
        requires
            within_limits(old(self).state@),
        ensures
            final(self).state@ == rm_by_nick_model(old(self).state@, nick@),
            rm_by_nick_effects(effs@, old(self).state@, nick@),
            within_limits(final(self).state@),
    {
        match self.last_position_by(&nick) {
            Some(i) => self.remove_at(i),
            None => {
                let mut text = String::new();
                push_str(&mut text, "No songs queued by ");
                push_str(&mut text, nick.as_str());
                assert(text@ =~= "No songs queued by "@ + nick@);
                let mut effs: Vec<Effect> = Vec::new();
                effs.push(bot_text(text));
                effs
            },
        }
    }

    /// The votes recorded for a song (none when it has no entry).
    pub fn get_votes(&self, song_id: &str) -> (v: SongVotes)
        ensures
            v@ == votes_in(self.state@.votes, song_id@),
    {
        let id = str_to_string(song_id);
        self.state.song_votes.get(&id)
    }

    /// Whether `user` queued a song with id `song_id` that is in the queue.
    fn is_own_song(&self, song_id: &String, user: &String) -> (b: bool)
        ensures
            b == own_song(self.state@.queued, song_id@, user@),
    {
        let q = &self.state.queued_songs;
        let mut i: usize = 0;
        while i < q.len()
            invariant
                i <= q@.len(),
                q@ == self.state@.queued,
                forall|j: int|
                    0 <= j < i ==> !((#[trigger] q@[j]).id@ == song_id@ && q@[j].queued_by@
                        == user@),
            decreases q.len() - i,
        {
            if q[i].id == *song_id && q[i].queued_by == *user {
                assert(q@[i as int].id@ == song_id@ && q@[i as int].queued_by@ == user@);
                return true;
            }
            i = i + 1;
        }
        false
    }

    /// `user` upvotes a song, taking back any downvote; upvoting one's own
    /// song is ignored.
    pub fn upvote(&mut self, song_id: &String, user: &String) -> (effs: Vec<Effect>)
        ensures
            final(self).state@ == upvote_model(old(self).state@, song_id@, user@),
            handle_effects(
                effs@,
                old(self).state@,
                PlaybackAction::Upvote { song_id: *song_id, user: *user },
            ),
    {
        let mut effs: Vec<Effect> = Vec::new();
        if self.is_own_song(song_id, user) {
            return effs;
        }
        self.state.song_votes.upvote(song_id, user);
        effs.push(Effect::Persist);
        effs
    }

    /// `user` downvotes a song, taking back any upvote.
    pub fn downvote(&mut self, song_id: &String, user: &String) -> (effs: Vec<Effect>)
        ensures
            final(self).state@ == downvote_model(old(self).state@, song_id@, user@),
            persist_only(effs@),
    {
        self.state.song_votes.downvote(song_id, user);
        let mut effs: Vec<Effect> = Vec::new();
        effs.push(Effect::Persist);
        effs
    }

    /// `user` takes back an upvote of a song that has votes recorded.
    pub fn remove_upvote(&mut self, song_id: &String, user: &String) -> (effs: Vec<Effect>)
        ensures
            final(self).state@ == remove_upvote_model(old(self).state@, song_id@, user@),
            handle_effects(
                effs@,
                old(self).state@,
                PlaybackAction::RemoveUpvote { song_id: *song_id, user: *user },
            ),
    {
        let mut effs: Vec<Effect> = Vec::new();
        if self.state.song_votes.contains(song_id) {
            self.state.song_votes.remove_upvote(song_id, user);
            effs.push(Effect::Persist);
        }
        effs
    }

    /// `user` takes back a downvote of a song that has votes recorded.
    pub fn remove_downvote(&mut self, song_id: &String, user: &String) -> (effs: Vec<Effect>)
        ensures
            final(self).state@ == remove_downvote_model(old(self).state@, song_id@, user@),
            handle_effects(
                effs@,
                old(self).state@,
                PlaybackAction::RemoveDownvote { song_id: *song_id, user: *user },
            ),
    {
        let mut effs: Vec<Effect> = Vec::new();
        if self.state.song_votes.contains(song_id) {
            self.state.song_votes.remove_downvote(song_id, user);
            effs.push(Effect::Persist);
        }
        effs
    }

    /// Handles one action of the music queue: the new state and the effects
    /// for the application to carry out, in order.
    pub fn handle_incoming_event(&mut self, action: PlaybackAction) -> (effs: Vec<Effect>)
        requires
            within_limits(old(self).state@),
            action_within_limits(old(self).state@, action),
        ensures
            final(self).state@ == handle_model(old(self).state@, action),
            handle_effects(effs@, old(self).state@, action),
            within_limits(final(self).state@),
    {
        let ghost m = self.state@;
        match action {
            PlaybackAction::Enqueue { song } => self.enqueue(song),
            PlaybackAction::ListQueue { offset } => {
                proof {
                    lemma_total_nonneg(m.played);
                }
                let mut effs: Vec<Effect> = Vec::new();
                effs.push(self.list_queue(offset));
                effs
            },
            PlaybackAction::RmSongByPos { pos } => self.rm_song_at_pos(pos),
            PlaybackAction::RmSongByNick { nick } => self.rm_latest_song_by_nick(nick),
            PlaybackAction::Play => {
                self.state.should_play = true;
                let mut effs: Vec<Effect>;
                if self.state.song_loaded {
                    self.state.is_playing = true;
                    effs = Vec::new();
                    effs.push(Effect::Send(Event::Symphonia(SymphoniaAction::Resume)));
                } else if self.state.queued_songs.len() > 0 {
                    proof {
                        lemma_total_nonneg(m.played);
                    }
                    let song = self.state.queued_songs[0].clone();
                    effs = self.play_song(song);
                    effs.push(Effect::Persist);
                    assert(effs@.take(3) =~= effs@.drop_last());
                    assert(self.state@ =~= play_model(m));
                    return effs;
                } else {
                    effs = Vec::new();
                }
                effs.push(Effect::Persist);
                assert(self.state@ =~= play_model(m));
                effs
            },
            PlaybackAction::Pause => {
                self.state.is_playing = false;
                self.state.should_play = false;
                let mut effs: Vec<Effect> = Vec::new();
                effs.push(Effect::Send(Event::Symphonia(SymphoniaAction::Pause)));
                effs.push(Effect::Persist);
                assert(self.state@ =~= handle_model(m, PlaybackAction::Pause));
                effs
            },
            PlaybackAction::EndOfSong => {
                self.state.is_playing = false;
                self.state.song_loaded = false;
                assert(self.state@ =~= song_ended(m));
                self.next(false)
            },
            PlaybackAction::Next => self.next(false),
            PlaybackAction::Prev => self.prev(),
            PlaybackAction::PlaybackProgress { position } => {
                self.state.playback_progress = position;
                assert(self.state@ =~= handle_model(m, action));
                Vec::new()
            },
            PlaybackAction::Upvote { song_id, user } => self.upvote(&song_id, &user),
            PlaybackAction::Downvote { song_id, user } => self.downvote(&song_id, &user),
            PlaybackAction::RemoveUpvote { song_id, user } => self.remove_upvote(&song_id, &user),
            PlaybackAction::RemoveDownvote { song_id, user } => self.remove_downvote(
                &song_id,
                &user,
            ),
        }
    }

    /// Creates the music queue from a saved state. When playback is wanted
    /// and a song is queued, the first song starts right away.
    pub fn create(state: PlaybackState) -> (r: (Playback, Vec<Effect>))
        requires
            within_limits(state@),
        ensures
            state@.should_play && state@.queued.len() > 0 ==> r.0.state@ == started(state@)
                && play_song_effects(r.1@, started(state@), state@.queued[0]),
            !(state@.should_play && state@.queued.len() > 0) ==> r.0.state@ == state@
                && r.1@.len() == 0,
    {
        let mut playback = Playback { state };
        if playback.state.should_play && playback.state.queued_songs.len() > 0 {
            proof {
                lemma_total_nonneg(state@.played);
            }
            let song = playback.state.queued_songs[0].clone();
            let effs = playback.play_song(song);
            (playback, effs)
        } else {
            (playback, Vec::new())
        }
    }

    /// The queue as it will play out given the votes: the current song first
    /// (votes do not move it), then the upcoming songs by score, highest
    /// first, earlier position first among equal scores. Each entry holds
    /// the song, its position in the queue and its position in this order.
    pub fn get_sorted_upcoming(&self) -> (r: Vec<(Song, usize, usize)>)
        ensures
            sorted_upcoming(r@, self.state@.queued, self.state@.votes),
    {
        let q = &self.state.queued_songs;
        let mut r: Vec<(Song, usize, usize)> = Vec::new();
        if q.len() == 0 {
            return r;
        }
        let order = vote_order_from(&self.state.queued_songs, &self.state.song_votes, 1);
        let ghost qs = self.state@.queued;
        let ghost votes = self.state@.votes;
        proof {
            lemma_listed_len(order@, qs, votes, 1, qs.len() as int);
        }
        r.push((q[0].clone(), 0, 0));
        let mut k: usize = 0;
        while k < order.len()
            invariant
                q@ == qs,
                qs == self.state@.queued,
                votes == self.state@.votes,
                qs.len() > 0,
                in_vote_order(order@, qs, votes, 1, qs.len() as int),
                k <= order@.len(),
                r@.len() == k + 1,
                r@[0] == (qs[0], 0usize, 0usize),
                forall|j: int|
                    1 <= j < r@.len() ==> (#[trigger] r@[j]).2 == j && r@[j].1 == order@[j - 1]
                        && r@[j].0 == qs[r@[j].1 as int],
            decreases order.len() - k,
        {
            let pos = order[k];
            r.push((q[pos].clone(), pos, k + 1));
            k = k + 1;
        }
        proof {
            lemma_listed_len(order@, qs, votes, 1, qs.len() as int);
            assert forall|a: int, b: int| 1 <= a < b < r@.len() implies vote_before(
                qs,
                votes,
                (#[trigger] r@[a]).1 as int,
                (#[trigger] r@[b]).1 as int,
            ) by {
                assert(r@[a].1 == order@[a - 1] && r@[b].1 == order@[b - 1]);
            }
            assert forall|j: int| 1 <= j < qs.len() implies #[trigger] lists_position(r@, j) by {
                assert(lists(order@, j));
                let k = choose|k: int| 0 <= k < order@.len() && #[trigger] order@[k] == j;
                assert(r@[k + 1].1 == j);
            }
        }
        r
    }

    /// Whether a song of the given duration can be enqueued: the durations
    /// of all songs would still add up in a `u64`.
    pub fn fits_song(&self, duration: u64) -> (b: bool)
        requires
            within_limits(self.state@),
        ensures
            b == (total_duration(self.state@.played) + total_duration(self.state@.queued) + duration
                <= u64::MAX),
    {
        proof {
            lemma_total_nonneg(self.state@.played);
            lemma_total_nonneg(self.state@.queued);
        }
        let played = total_secs(&self.state.played_songs);
        let queued = total_secs(&self.state.queued_songs);
        match played.checked_add(queued) {
            Some(t) => t.checked_add(duration).is_some(),
            None => false,
        }
    }
}

impl PlaybackState {
    /// Whether the durations of all songs add up in a `u64`.
    pub fn check_limits(&self) -> (b: bool)
        ensures
            b == within_limits(self@),
    {
        let mut sum: u64 = 0;
        let mut i: usize = 0;
        while i < self.played_songs.len()
            invariant
                i <= self.played_songs@.len(),
                sum == total_duration(self.played_songs@.take(i as int)),
            decreases self.played_songs.len() - i,
        {
            assert(self.played_songs@.take(i + 1).drop_last() =~= self.played_songs@.take(i as int));
            match sum.checked_add(self.played_songs[i].duration) {
                Some(t) => sum = t,
                None => {
                    proof {
                        lemma_total_prefix(self.played_songs@, i + 1);
                        lemma_total_nonneg(self.queued_songs@);
                    }
                    return false;
                },
            }
            i = i + 1;
        }
        assert(self.played_songs@.take(i as int) =~= self.played_songs@);
        let mut j: usize = 0;
        while j < self.queued_songs.len()
            invariant
                j <= self.queued_songs@.len(),
                sum == total_duration(self.played_songs@) + total_duration(self.queued_songs@.take(j as int)),
            decreases self.queued_songs.len() - j,
        {
            assert(self.queued_songs@.take(j + 1).drop_last() =~= self.queued_songs@.take(j as int));
            match sum.checked_add(self.queued_songs[j].duration) {
                Some(t) => sum = t,
                None => {
                    proof {
                        lemma_total_prefix(self.queued_songs@, j + 1);
                    }
                    return false;
                },
            }
            j = j + 1;
        }
        assert(self.queued_songs@.take(j as int) =~= self.queued_songs@);
        true
    }
}

/// Sum of the durations of songs whose total fits in a `u64`.
fn total_secs(q: &Vec<Song>) -> (t: u64)
    requires
        total_duration(q@) <= u64::MAX,
    ensures
        t == total_duration(q@),
{
    let mut sum: u64 = 0;
    let mut i: usize = 0;
    while i < q.len()
        invariant
            i <= q@.len(),
            total_duration(q@) <= u64::MAX,
            sum == total_duration(q@.take(i as int)),
        decreases q.len() - i,
    {
        proof {
            assert(q@.take(i + 1).drop_last() =~= q@.take(i as int));
            lemma_total_prefix(q@, i + 1);
        }
        sum = sum + q[i].duration;
        i = i + 1;
    }
    assert(q@.take(i as int) =~= q@);
    sum
}


/// The announcement that a song left the queue.
fn removed_msg(title: String) -> (e: Effect)
    ensures
        is_removed_msg(e, title@),
{
    let mut text = String::new();
    push_str(&mut text, "Removed song ");
    push_str(&mut text, title.as_str());
    push_str(&mut text, " from the queue");
    assert(text@ =~= "Removed song "@ + title@ + " from the queue"@);
    Effect::Send(Event::Message(MessageAction::rich(text, RichContent::SongRemoved { title })))
}

/// The text when there is no song to remove at a position.
fn no_song_at(pos: usize) -> (s: String)
    ensures
        s@ == no_song_at_text(pos),
{
    let mut s = String::new();
    push_str(&mut s, "No song at position ");
    push_decimal(&mut s, pos as u64);
    push_str(&mut s, " in the queue");
    assert(s@ =~= no_song_at_text(pos));
    s
}

/// The ids of the songs of a list, in order.
fn song_ids(q: &Vec<Song>) -> (r: Vec<String>)
    ensures
        names(r@) == ids(q@),
{
    let mut r: Vec<String> = Vec::new();
    let mut i: usize = 0;
    while i < q.len()
        invariant
            i <= q@.len(),
            names(r@) =~= ids(q@.take(i as int)),
        decreases q.len() - i,
    {
        r.push(q[i].id.clone());
        assert(ids(q@.take(i + 1)) =~= ids(q@.take(i as int)).push(q@[i as int].id@));
        i = i + 1;
    }
    assert(q@.take(q.len() as int) =~= q@);
    r
}

/// Whether the song at position `a` scores at least as high as the one at
/// position `b`.
fn scores_at_least(q: &Vec<Song>, votes: &VoteTable, a: usize, b: usize) -> (r: bool)
    requires
        a < q@.len(),
        b < q@.len(),
    ensures
        r == (score_at(q@, votes@, a as int) >= score_at(q@, votes@, b as int)),
{
    let (up_a, down_a) = votes.counts(&q[a].id);
    let (up_b, down_b) = votes.counts(&q[b].id);
    (up_a as u128) + (down_b as u128) >= (up_b as u128) + (down_a as u128)
}

/// The positions `lo..` of a list of songs in vote order: a higher score
/// first, the earlier position first among equal scores.
pub fn vote_order_from(q: &Vec<Song>, votes: &VoteTable, lo: usize) -> (order: Vec<usize>)
    ensures
        in_vote_order(order@, q@, votes@, lo as int, q@.len() as int),
{
    let n = q.len();
    let mut order: Vec<usize> = Vec::new();
    if lo >= n {
        return order;
    }
    let mut i: usize = lo;
    while i < n
        invariant
            lo <= i <= n,
            n == q@.len(),
            in_vote_order(order@, q@, votes@, lo as int, i as int),
        decreases n - i,
    {
        let mut p: usize = 0;
        loop
            invariant
                lo <= i < n,
                n == q@.len(),
                in_vote_order(order@, q@, votes@, lo as int, i as int),
                p <= order@.len(),
                forall|k: int|
                    0 <= k < p ==> score_at(q@, votes@, #[trigger] order@[k] as int) >= score_at(
                        q@,
                        votes@,
                        i as int,
                    ),
            ensures
                p <= order@.len(),
                forall|k: int|
                    0 <= k < p ==> score_at(q@, votes@, #[trigger] order@[k] as int) >= score_at(
                        q@,
                        votes@,
                        i as int,
                    ),
                p < order@.len() ==> score_at(q@, votes@, order@[p as int] as int) < score_at(
                    q@,
                    votes@,
                    i as int,
                ),
            decreases order@.len() - p,
        {
            if p == order.len() {
                break;
            }
            if !scores_at_least(q, votes, order[p], i) {
                break;
            }
            p = p + 1;
        }
        proof {
            lemma_vote_order_insert(order@, q@, votes@, lo as int, i, p as int);
        }
        order.insert(p, i);
        i = i + 1;
    }
    order
}

} // verus!
