//! The mathematical model of the music queue: what each operation does to
//! the queue state and which effects it hands back, and the lemmas about
//! song durations that the operations rely on.

use vstd::prelude::*;

use crate::event::{is_bot_text, is_player, Effect, Event};
use crate::message::{MessageAction, NowPlayingInfo, Platform, RichContent};
use crate::playback::{PlaybackAction, Song, VotesView};
use crate::sources::symphonia::SymphoniaAction;
use crate::text::{decimal, two_digits};
use crate::votes::{
    score_in, votes_in, with_downvote, with_upvote, without_downvote, without_upvote,
};

verus! {

/// The abstract state of the music queue.
#[verifier::ext_equal]
pub struct PlaybackModel {
    /// Songs played so far, oldest first.
    pub played: Seq<Song>,
    /// The song being played (if any) followed by the upcoming songs.
    pub queued: Seq<Song>,
    /// Votes per song id.
    pub votes: Map<Seq<char>, VotesView>,
    pub song_loaded: bool,
    pub is_playing: bool,
    pub should_play: bool,
    /// Progress of the current song in seconds.
    pub progress: u64,
}

// ---------------------------------------------------------------------------
// Durations
/// Sum of the durations of a list of songs, in seconds.
pub open spec fn total_duration(s: Seq<Song>) -> int
    decreases s.len(),
{
    if s.len() == 0 {
        0
    } else {
        total_duration(s.drop_last()) + s.last().duration
    }
}

/// The songs after the one being played.
pub open spec fn upcoming(q: Seq<Song>) -> Seq<Song> {
    if q.len() == 0 {
        q
    } else {
        q.drop_first()
    }
}

/// Number of songs waiting after the current one.
pub open spec fn queue_len(q: Seq<Song>) -> nat {
    upcoming(q).len()
}

/// Whole minutes of music waiting after the current song.
pub open spec fn queue_mins(q: Seq<Song>) -> int {
    total_duration(upcoming(q)) / 60
}

/// The durations of all songs the state holds can be added up in a `u64`.
pub open spec fn within_limits(m: PlaybackModel) -> bool {
    total_duration(m.played) + total_duration(m.queued) <= u64::MAX
}

pub proof fn lemma_total_nonneg(s: Seq<Song>)
    ensures
        total_duration(s) >= 0,
    decreases s.len(),
{
    if s.len() > 0 {
        lemma_total_nonneg(s.drop_last());
    }
}

pub proof fn lemma_total_push(s: Seq<Song>, x: Song)
    ensures
        total_duration(s.push(x)) == total_duration(s) + x.duration,
{
    assert(s.push(x).drop_last() =~= s);
}

pub proof fn lemma_total_prefix(s: Seq<Song>, k: int)
    requires
        0 <= k <= s.len(),
    ensures
        0 <= total_duration(s.take(k)) <= total_duration(s),
    decreases s.len(),
{
    lemma_total_nonneg(s.take(k));
    if k < s.len() {
        assert(s.drop_last().take(k) =~= s.take(k));
        lemma_total_prefix(s.drop_last(), k);
    } else {
        assert(s.take(k) =~= s);
    }
}

pub proof fn lemma_total_front(s: Seq<Song>, x: Song)
    ensures
        total_duration(seq![x] + s) == x.duration + total_duration(s),
    decreases s.len(),
{
    if s.len() == 0 {
        assert((seq![x] + s).drop_last() =~= Seq::<Song>::empty());
        assert((seq![x] + s).last() == x);
        assert(total_duration(Seq::<Song>::empty()) == 0);
        assert(total_duration(s) == 0);
        assert(total_duration(seq![x] + s) == total_duration((seq![x] + s).drop_last()) + x.duration);
    } else {
        assert((seq![x] + s).drop_last() =~= seq![x] + s.drop_last());
        assert((seq![x] + s).last() == s.last());
        lemma_total_front(s.drop_last(), x);
        assert(total_duration(seq![x] + s) == total_duration((seq![x] + s).drop_last()) + s.last().duration);
    }
}

pub proof fn lemma_total_drop_first(s: Seq<Song>)
    requires
        s.len() > 0,
    ensures
        total_duration(s) == s[0].duration + total_duration(s.drop_first()),
{
    assert(s =~= seq![s[0]] + s.drop_first());
    lemma_total_front(s.drop_first(), s[0]);
}

pub proof fn lemma_total_remove(s: Seq<Song>, i: int)
    requires
        0 <= i < s.len(),
    ensures
        total_duration(s) == s[i].duration + total_duration(s.remove(i)),
    decreases s.len(),
{
    if i == s.len() - 1 {
        assert(s.remove(i) =~= s.drop_last());
    } else {
        lemma_total_remove(s.drop_last(), i);
        assert(s.remove(i).drop_last() =~= s.drop_last().remove(i));
    }
}

pub proof fn lemma_total_upcoming(q: Seq<Song>)
    ensures
        0 <= total_duration(upcoming(q)) <= total_duration(q),
{
    lemma_total_nonneg(upcoming(q));
    if q.len() > 0 {
        lemma_total_drop_first(q);
    }
}

// ---------------------------------------------------------------------------
// Message texts
/// How a song is shown in queue listings.
pub open spec fn song_line(s: Song) -> Seq<char> {
    s.title@ + " ("@ + s.url@ + ", queued by "@ + s.queued_by@ + ")"@
}

/// The song at a position of the queue as shown in listings, or
/// `(nothing)` past the end.
pub open spec fn song_line_at(q: Seq<Song>, i: int) -> Seq<char> {
    if 0 <= i < q.len() {
        song_line(q[i])
    } else {
        "(nothing)"@
    }
}

/// `m:ss` for a number of seconds.
pub open spec fn clock(secs: u64) -> Seq<char> {
    decimal((secs / 60) as nat) + ":"@ + two_digits((secs % 60) as nat)
}

/// The text of a queue listing: the whole queue when `offset` is `None`,
/// else the song at that position.
pub open spec fn status_text(m: PlaybackModel, offset: Option<usize>) -> Seq<char> {
    if m.queued.len() == 0 {
        "Queue is empty!"@
    } else {
        match offset {
            Some(o) => "Song at position "@ + decimal(o as nat) + ": "@ + song_line_at(
                m.queued,
                o as int,
            ),
            None => (if m.is_playing {
                "Now playing"@
            } else {
                "Paused"@
            }) + " ("@ + clock(m.progress) + "/"@ + clock(m.queued[0].duration) + "): "@
                + song_line(m.queued[0]) + ", next up: "@ + song_line_at(m.queued, 1)
                + ". Queue length: "@ + decimal(queue_len(m.queued)) + " songs ("@ + decimal(
                queue_mins(m.queued) as nat,
            ) + " min)"@,
        }
    }
}

/// The confirmation of an enqueued song.
pub open spec fn enqueued_text(song: Song, mins: int) -> Seq<char> {
    "Added "@ + song.title@ + " ("@ + song.url@ + ") to the queue (queued by "@ + song.queued_by@
        + "). Time until playback: "@ + decimal(mins as nat) + " min"@
}

// ---------------------------------------------------------------------------
// Effects
/// `e` is the queue listing of state `m`.
pub open spec fn is_queue_status(e: Effect, m: PlaybackModel, offset: Option<usize>) -> bool {
    &&& e matches Effect::Send(Event::Message(MessageAction::Send { text, rich, source }))
    &&& text@ == status_text(m, offset)
    &&& source == Platform::Bot
    &&& rich == Some(
        RichContent::QueueStatus {
            now_playing: if m.queued.len() > 0 {
                Some(NowPlayingInfo { song: m.queued[0], progress_secs: m.progress })
            } else {
                None
            },
            next_up: if m.queued.len() > 1 {
                Some(m.queued[1])
            } else {
                None
            },
            queue_length: queue_len(m.queued) as usize,
            queue_duration_mins: queue_mins(m.queued) as u64,
            is_playing: m.is_playing,
        },
    )
}

/// `e` announces that a song with the given title left the queue.
pub open spec fn is_removed_msg(e: Effect, title: Seq<char>) -> bool {
    &&& e matches Effect::Send(Event::Message(MessageAction::Send { text, rich, source }))
    &&& text@ == "Removed song "@ + title + " from the queue"@
    &&& source == Platform::Bot
    &&& rich matches Some(RichContent::SongRemoved { title: t })
    &&& t@ == title
}

/// `e` confirms that `song` was enqueued with `mins` minutes of music before it.
pub open spec fn is_enqueued_msg(e: Effect, song: Song, mins: int) -> bool {
    &&& e matches Effect::Send(Event::Message(MessageAction::Send { text, rich, source }))
    &&& text@ == enqueued_text(song, mins)
    &&& source == Platform::Bot
    &&& rich == Some(RichContent::SongEnqueued { song, time_until_playback_mins: mins as u64 })
}

/// `e` tells the player to play the song at `url`.
pub open spec fn is_play_url(e: Effect, url: Seq<char>) -> bool {
    e matches Effect::Send(Event::Symphonia(SymphoniaAction::PlayYtUrl { url: u })) && u@ == url
}

// ---------------------------------------------------------------------------
// Transitions
/// The state once a song starts playing from its beginning.
pub open spec fn started(m: PlaybackModel) -> PlaybackModel {
    PlaybackModel { is_playing: true, song_loaded: true, progress: 0, ..m }
}

/// The state once playback stops.
pub open spec fn stopped(m: PlaybackModel) -> PlaybackModel {
    PlaybackModel { is_playing: false, ..m }
}

/// The effects of starting `song`, `after` being the state it leads to: the
/// player is told to play it, the queue is listed, the state is saved.
pub open spec fn play_song_effects(effs: Seq<Effect>, after: PlaybackModel, song: Song) -> bool {
    &&& effs.len() == 3
    &&& is_play_url(effs[0], song.url@)
    &&& is_queue_status(effs[1], after, None)
    &&& effs[2] == Effect::Persist
}

/// The effects of reaching the end of the queue: the player stops, the bot
/// says so, the state is saved.
pub open spec fn end_of_queue_effects(effs: Seq<Effect>) -> bool {
    &&& effs.len() == 3
    &&& is_player(effs[0], SymphoniaAction::Stop)
    &&& is_bot_text(effs[1], "Playback queue ended."@)
    &&& effs[2] == Effect::Persist
}

/// The ids of a list of songs.
pub open spec fn ids(q: Seq<Song>) -> Seq<Seq<char>> {
    q.map_values(|s: Song| s.id@)
}

/// The net vote score of the song at position `i`.
pub open spec fn score_at(q: Seq<Song>, votes: Map<Seq<char>, VotesView>, i: int) -> int {
    score_in(votes, q[i].id@)
}

/// Song `i` comes before song `j` in vote order: a higher score first, the
/// earlier position first among equal scores.
pub open spec fn vote_before(q: Seq<Song>, votes: Map<Seq<char>, VotesView>, i: int, j: int) -> bool {
    score_at(q, votes, i) > score_at(q, votes, j) || (score_at(q, votes, i) == score_at(
        q,
        votes,
        j,
    ) && i < j)
}

/// The position, among the first `n` songs, of the one with the highest
/// score, the earliest among equal scores.
pub open spec fn best_index(q: Seq<Song>, votes: Map<Seq<char>, VotesView>, n: int) -> int
    decreases n,
{
    if n <= 1 {
        0
    } else {
        let b = best_index(q, votes, n - 1);
        if score_at(q, votes, n - 1) > score_at(q, votes, b) {
            n - 1
        } else {
            b
        }
    }
}

/// The queue with the song at position `i` moved to the front.
pub open spec fn promote(q: Seq<Song>, i: int) -> Seq<Song> {
    if i == 0 {
        q
    } else {
        seq![q[i]] + q.remove(i)
    }
}

/// The state after the current song leaves the queue (into the played songs
/// unless it is being removed), with its votes and those of songs no longer
/// queued dropped.
pub open spec fn after_current(m: PlaybackModel, remove_current: bool) -> PlaybackModel {
    let played = if m.queued.len() > 0 && !remove_current {
        m.played.push(m.queued[0])
    } else {
        m.played
    };
    let queued = upcoming(m.queued);
    let votes = if m.queued.len() > 0 {
        m.votes.remove(m.queued[0].id@)
    } else {
        m.votes
    };
    PlaybackModel { played, queued, votes: votes.restrict(ids(queued).to_set()), ..m }
}

/// The state after advancing to the next song: the best-voted upcoming song
/// moves to the front and starts, or playback stops when none is left.
pub open spec fn next_model(m: PlaybackModel, remove_current: bool) -> PlaybackModel {
    let r = after_current(m, remove_current);
    if r.queued.len() == 0 {
        stopped(r)
    } else {
        started(
            PlaybackModel {
                queued: promote(r.queued, best_index(r.queued, r.votes, r.queued.len() as int)),
                ..r
            },
        )
    }
}

/// The effects of advancing to the next song.
pub open spec fn next_effects(effs: Seq<Effect>, m: PlaybackModel, remove_current: bool) -> bool {
    let n = next_model(m, remove_current);
    &&& effs.len() == 4
    &&& effs[3] == Effect::Persist
    &&& if n.queued.len() == 0 {
        end_of_queue_effects(effs.take(3))
    } else {
        play_song_effects(effs.take(3), n, n.queued[0])
    }
}

/// The state after going back to the previous song.
pub open spec fn prev_model(m: PlaybackModel) -> PlaybackModel {
    if m.played.len() > 0 {
        started(
            PlaybackModel {
                played: m.played.drop_last(),
                queued: seq![m.played.last()] + m.queued,
                ..m
            },
        )
    } else {
        stopped(m)
    }
}

/// The effects of going back to the previous song.
pub open spec fn prev_effects(effs: Seq<Effect>, m: PlaybackModel) -> bool {
    &&& effs.len() == 4
    &&& effs[3] == Effect::Persist
    &&& if m.played.len() > 0 {
        play_song_effects(effs.take(3), prev_model(m), m.played.last())
    } else {
        end_of_queue_effects(effs.take(3))
    }
}

/// A song with the same id as `song` is queued.
pub open spec fn in_queue(q: Seq<Song>, song: Song) -> bool {
    exists|i: int| 0 <= i < q.len() && (#[trigger] q[i]).id@ == song.id@
}

/// Enqueueing `song` into an empty queue starts it right away.
pub open spec fn starts_on_enqueue(m: PlaybackModel) -> bool {
    !m.is_playing && m.should_play && m.queued.len() == 0
}

/// The state after enqueueing `song`.
pub open spec fn enqueue_model(m: PlaybackModel, song: Song) -> PlaybackModel {
    if in_queue(m.queued, song) {
        m
    } else {
        let pushed = PlaybackModel { queued: m.queued.push(song), ..m };
        if starts_on_enqueue(m) {
            started(pushed)
        } else {
            pushed
        }
    }
}

/// The effects of enqueueing `song`.
pub open spec fn enqueue_effects(effs: Seq<Effect>, m: PlaybackModel, song: Song) -> bool {
    if in_queue(m.queued, song) {
        effs.len() == 1 && is_bot_text(effs[0], "Song already in queue!"@)
    } else {
        &&& is_enqueued_msg(effs[0], song, queue_mins(m.queued))
        &&& if starts_on_enqueue(m) {
            &&& effs.len() == 5
            &&& play_song_effects(effs.subrange(1, 4), enqueue_model(m, song), song)
            &&& effs[4] == Effect::Persist
        } else {
            effs.len() == 2 && effs[1] == Effect::Persist
        }
    }
}

/// The position of the latest song queued by `nick` among the first `n`.
pub open spec fn last_queued_by(q: Seq<Song>, nick: Seq<char>, n: int) -> Option<int>
    decreases n,
{
    if n <= 0 {
        None
    } else if q[n - 1].queued_by@ == nick {
        Some(n - 1)
    } else {
        last_queued_by(q, nick, n - 1)
    }
}

/// The state after removing the song at position `i` of the queue: removing
/// the current song skips to the next one.
pub open spec fn remove_model(m: PlaybackModel, i: int) -> PlaybackModel {
    if i == 0 {
        next_model(m, true)
    } else {
        PlaybackModel { queued: m.queued.remove(i), ..m }
    }
}

/// The effects of removing the song at position `i` (which must exist).
pub open spec fn remove_effects(effs: Seq<Effect>, m: PlaybackModel, i: int) -> bool {
    if i == 0 {
        &&& effs.len() == 5
        &&& next_effects(effs.take(4), m, true)
        &&& is_removed_msg(effs[4], m.queued[0].title@)
    } else {
        effs.len() == 1 && is_removed_msg(effs[0], m.queued[i].title@)
    }
}

/// The text when there is no song to remove at a position.
pub open spec fn no_song_at_text(pos: usize) -> Seq<char> {
    "No song at position "@ + decimal(pos as nat) + " in the queue"@
}

/// The state after a request to remove the song at position `pos`. Position
/// 0 always skips to the next song, even in an empty queue.
pub open spec fn rm_at_pos_model(m: PlaybackModel, pos: usize) -> PlaybackModel {
    if pos == 0 || pos < m.queued.len() {
        remove_model(m, pos as int)
    } else {
        m
    }
}

/// The effects of a request to remove the song at position `pos`.
pub open spec fn rm_at_pos_effects(effs: Seq<Effect>, m: PlaybackModel, pos: usize) -> bool {
    if pos < m.queued.len() {
        remove_effects(effs, m, pos as int)
    } else if pos == 0 {
        &&& effs.len() == 5
        &&& next_effects(effs.take(4), m, true)
        &&& is_bot_text(effs[4], no_song_at_text(0))
    } else {
        effs.len() == 1 && is_bot_text(effs[0], no_song_at_text(pos))
    }
}

/// The state after removing the latest song queued by `nick`.
pub open spec fn rm_by_nick_model(m: PlaybackModel, nick: Seq<char>) -> PlaybackModel {
    match last_queued_by(m.queued, nick, m.queued.len() as int) {
        Some(i) => remove_model(m, i),
        None => m,
    }
}

/// The effects of removing the latest song queued by `nick`.
pub open spec fn rm_by_nick_effects(effs: Seq<Effect>, m: PlaybackModel, nick: Seq<char>) -> bool {
    match last_queued_by(m.queued, nick, m.queued.len() as int) {
        Some(i) => remove_effects(effs, m, i),
        None => effs.len() == 1 && is_bot_text(effs[0], "No songs queued by "@ + nick),
    }
}

/// `user` queued a song with id `id` that is in the queue.
pub open spec fn own_song(q: Seq<Song>, id: Seq<char>, user: Seq<char>) -> bool {
    exists|i: int| 0 <= i < q.len() && (#[trigger] q[i]).id@ == id && q[i].queued_by@ == user
}

/// The state after `user` upvotes song `id`; upvotes of one's own song are
/// ignored.
pub open spec fn upvote_model(m: PlaybackModel, id: Seq<char>, user: Seq<char>) -> PlaybackModel {
    if own_song(m.queued, id, user) {
        m
    } else {
        PlaybackModel { votes: m.votes.insert(id, with_upvote(votes_in(m.votes, id), user)), ..m }
    }
}

/// The state after `user` downvotes song `id`.
pub open spec fn downvote_model(m: PlaybackModel, id: Seq<char>, user: Seq<char>) -> PlaybackModel {
    PlaybackModel { votes: m.votes.insert(id, with_downvote(votes_in(m.votes, id), user)), ..m }
}

/// The state after `user` takes back an upvote of song `id`.
pub open spec fn remove_upvote_model(m: PlaybackModel, id: Seq<char>, user: Seq<char>) -> PlaybackModel {
    if m.votes.contains_key(id) {
        PlaybackModel { votes: m.votes.insert(id, without_upvote(m.votes[id], user)), ..m }
    } else {
        m
    }
}

/// The state after `user` takes back a downvote of song `id`.
pub open spec fn remove_downvote_model(m: PlaybackModel, id: Seq<char>, user: Seq<char>) -> PlaybackModel {
    if m.votes.contains_key(id) {
        PlaybackModel { votes: m.votes.insert(id, without_downvote(m.votes[id], user)), ..m }
    } else {
        m
    }
}

/// The state after a request to resume playback.
pub open spec fn play_model(m: PlaybackModel) -> PlaybackModel {
    let wanted = PlaybackModel { should_play: true, ..m };
    if m.song_loaded {
        PlaybackModel { is_playing: true, ..wanted }
    } else if m.queued.len() > 0 {
        started(wanted)
    } else {
        wanted
    }
}

/// The state after the player reports the end of the current song.
pub open spec fn song_ended(m: PlaybackModel) -> PlaybackModel {
    PlaybackModel { is_playing: false, song_loaded: false, ..m }
}

/// The state after handling an action.
pub open spec fn handle_model(m: PlaybackModel, action: PlaybackAction) -> PlaybackModel {
    match action {
        PlaybackAction::Enqueue { song } => enqueue_model(m, song),
        PlaybackAction::EndOfSong => next_model(song_ended(m), false),
        PlaybackAction::ListQueue { .. } => m,
        PlaybackAction::RmSongByPos { pos } => rm_at_pos_model(m, pos),
        PlaybackAction::RmSongByNick { nick } => rm_by_nick_model(m, nick@),
        PlaybackAction::Play => play_model(m),
        PlaybackAction::Pause => PlaybackModel { is_playing: false, should_play: false, ..m },
        PlaybackAction::Prev => prev_model(m),
        PlaybackAction::Next => next_model(m, false),
        PlaybackAction::PlaybackProgress { position } => PlaybackModel { progress: position, ..m },
        PlaybackAction::Upvote { song_id, user } => upvote_model(m, song_id@, user@),
        PlaybackAction::Downvote { song_id, user } => downvote_model(m, song_id@, user@),
        PlaybackAction::RemoveUpvote { song_id, user } => remove_upvote_model(m, song_id@, user@),
        PlaybackAction::RemoveDownvote { song_id, user } => remove_downvote_model(
            m,
            song_id@,
            user@,
        ),
    }
}

/// Only a save of the state.
pub open spec fn persist_only(effs: Seq<Effect>) -> bool {
    effs.len() == 1 && effs[0] == Effect::Persist
}

/// The effects of handling an action.
pub open spec fn handle_effects(effs: Seq<Effect>, m: PlaybackModel, action: PlaybackAction) -> bool {
    match action {
        PlaybackAction::Enqueue { song } => enqueue_effects(effs, m, song),
        PlaybackAction::EndOfSong => next_effects(effs, song_ended(m), false),
        PlaybackAction::ListQueue { offset } => effs.len() == 1 && is_queue_status(
            effs[0],
            m,
            offset,
        ),
        PlaybackAction::RmSongByPos { pos } => rm_at_pos_effects(effs, m, pos),
        PlaybackAction::RmSongByNick { nick } => rm_by_nick_effects(effs, m, nick@),
        PlaybackAction::Play => if m.song_loaded {
            effs.len() == 2 && is_player(effs[0], SymphoniaAction::Resume) && effs[1]
                == Effect::Persist
        } else if m.queued.len() > 0 {
            effs.len() == 4 && play_song_effects(effs.take(3), play_model(m), m.queued[0])
                && effs[3] == Effect::Persist
        } else {
            persist_only(effs)
        },
        PlaybackAction::Pause => effs.len() == 2 && is_player(effs[0], SymphoniaAction::Pause)
            && effs[1] == Effect::Persist,
        PlaybackAction::Prev => prev_effects(effs, m),
        PlaybackAction::Next => next_effects(effs, m, false),
        PlaybackAction::PlaybackProgress { .. } => effs.len() == 0,
        PlaybackAction::Upvote { song_id, user } => if own_song(m.queued, song_id@, user@) {
            effs.len() == 0
        } else {
            persist_only(effs)
        },
        PlaybackAction::Downvote { .. } => persist_only(effs),
        PlaybackAction::RemoveUpvote { song_id, .. } => if m.votes.contains_key(song_id@) {
            persist_only(effs)
        } else {
            effs.len() == 0
        },
        PlaybackAction::RemoveDownvote { song_id, .. } => if m.votes.contains_key(song_id@) {
            persist_only(effs)
        } else {
            effs.len() == 0
        },
    }
}

/// What handling an action asks of the song durations: an enqueued song's
/// duration must still add up with all the others in a `u64`.
pub open spec fn action_within_limits(m: PlaybackModel, action: PlaybackAction) -> bool {
    match action {
        PlaybackAction::Enqueue { song } => total_duration(m.played) + total_duration(m.queued)
            + song.duration <= u64::MAX,
        _ => true,
    }
}

/// `order` lists the positions `lo..n` of `q` in vote order, each once.
pub open spec fn in_vote_order(
    order: Seq<usize>,
    q: Seq<Song>,
    votes: Map<Seq<char>, VotesView>,
    lo: int,
    n: int,
) -> bool {
    &&& forall|k: int| 0 <= k < order.len() ==> lo <= #[trigger] order[k] < n
    &&& forall|a: int, b: int|
        0 <= a < b < order.len() ==> vote_before(q, votes, #[trigger] order[a] as int, #[trigger] order[b] as int)
    &&& forall|j: int| lo <= j < n ==> #[trigger] lists(order, j)
}

/// Position `j` occurs in `order`.
pub open spec fn lists(order: Seq<usize>, j: int) -> bool {
    exists|k: int| 0 <= k < order.len() && #[trigger] order[k] == j
}

/// Queue position `j` occurs in `r` after its first entry.
pub open spec fn lists_position(r: Seq<(Song, usize, usize)>, j: int) -> bool {
    exists|k: int| 1 <= k < r.len() && (#[trigger] r[k]).1 == j
}

/// `r` is the queue as it will play out given the votes: the current song
/// first at position 0, then every upcoming song in vote order, each with
/// its position in the queue and its position in the vote order.
pub open spec fn sorted_upcoming(
    r: Seq<(Song, usize, usize)>,
    q: Seq<Song>,
    votes: Map<Seq<char>, VotesView>,
) -> bool {
    &&& r.len() == q.len()
    &&& q.len() > 0 ==> r[0] == (q[0], 0usize, 0usize)
    &&& forall|k: int|
        1 <= k < r.len() ==> (#[trigger] r[k]).2 == k && 1 <= r[k].1 < q.len() && r[k].0
            == q[r[k].1 as int]
    &&& forall|a: int, b: int|
        1 <= a < b < r.len() ==> vote_before(q, votes, (#[trigger] r[a]).1 as int, (#[trigger] r[b]).1 as int)
    &&& forall|j: int| 1 <= j < q.len() ==> #[trigger] lists_position(r, j)
}

/// Inserting position `i` into a vote order of the positions before it, just
/// before the first position that scores lower, gives the vote order of the
/// positions up to `i`.
pub proof fn lemma_vote_order_insert(
    order: Seq<usize>,
    q: Seq<Song>,
    votes: Map<Seq<char>, VotesView>,
    lo: int,
    i: usize,
    p: int,
)
    requires
        lo <= i,
        in_vote_order(order, q, votes, lo, i as int),
        0 <= p <= order.len(),
        forall|k: int| 0 <= k < p ==> score_at(q, votes, #[trigger] order[k] as int) >= score_at(q, votes, i as int),
        p < order.len() ==> score_at(q, votes, order[p] as int) < score_at(q, votes, i as int),
    ensures
        in_vote_order(order.insert(p, i), q, votes, lo, i + 1),
{
    let o2 = order.insert(p, i);
    order.insert_ensures(p, i);
    assert forall|k: int| p <= k < order.len() implies score_at(q, votes, #[trigger] order[k] as int)
        < score_at(q, votes, i as int) by {
        if k > p {
            assert(vote_before(q, votes, order[p] as int, order[k] as int));
        }
    }
    assert forall|k: int| 0 <= k < o2.len() implies lo <= #[trigger] o2[k] < i + 1 by {
        if k < p {
            assert(o2[k] == order[k]);
        } else if k > p {
            assert(o2[k] == order[k - 1]);
        }
    }
    assert forall|a: int, b: int| 0 <= a < b < o2.len() implies vote_before(
        q,
        votes,
        #[trigger] o2[a] as int,
        #[trigger] o2[b] as int,
    ) by {
        if b < p {
            assert(o2[a] == order[a] && o2[b] == order[b]);
        } else if b == p {
            assert(o2[a] == order[a]);
            assert(order[a] < i);
        } else if a < p {
            assert(o2[a] == order[a] && o2[b] == order[b - 1]);
        } else if a == p {
            assert(o2[b] == order[b - 1]);
        } else {
            assert(o2[a] == order[a - 1] && o2[b] == order[b - 1]);
        }
    }
    assert forall|j: int| lo <= j < i + 1 implies #[trigger] lists(o2, j) by {
        if j == i {
            assert(o2[p] == i);
        } else {
            assert(lists(order, j));
            let k = choose|k: int| 0 <= k < order.len() && #[trigger] order[k] == j;
            if k < p {
                assert(o2[k] == j);
            } else {
                assert(o2[k + 1] == j);
            }
        }
    }
}

/// A vote order of the positions `lo..n` has exactly `n - lo` entries.
pub proof fn lemma_listed_len(
    order: Seq<usize>,
    q: Seq<Song>,
    votes: Map<Seq<char>, VotesView>,
    lo: int,
    n: int,
)
    requires
        lo <= n,
        in_vote_order(order, q, votes, lo, n),
    ensures
        order.len() == n - lo,
{
    // Distinct entries drawn from 1..n: at most n - 1 of them.
    let f = |k: int| order[k] as int;
    assert forall|a: int, b: int| 0 <= a < b < order.len() implies order[a] != order[b] by {
        assert(vote_before(q, votes, order[a] as int, order[b] as int));
        if order[a] == order[b] {
            assert(!vote_before(q, votes, order[a] as int, order[b] as int));
        }
    }
    let dom = Set::new(|k: int| 0 <= k < order.len());
    let img = Set::new(|j: int| lo <= j < n);
    assert(dom =~= vstd::set_lib::set_int_range(0, order.len() as int));
    assert(img =~= vstd::set_lib::set_int_range(lo, n));
    vstd::set_lib::lemma_int_range(0, order.len() as int);
    vstd::set_lib::lemma_int_range(lo, n);
    assert(dom.map(f) =~= img) by {
        assert forall|j: int| img.contains(j) implies dom.map(f).contains(j) by {
            assert(lists(order, j));
            let k = choose|k: int| 0 <= k < order.len() && #[trigger] order[k] == j;
            assert(dom.contains(k) && f(k) == j);
        }
    }
    assert(vstd::relations::injective_on(f, dom)) by {
        assert forall|a: int, b: int| dom.contains(a) && dom.contains(b) && #[trigger] f(a) == #[trigger] f(b) implies a == b by {
            if a < b {
                assert(order[a] != order[b]);
            } else if b < a {
                assert(order[b] != order[a]);
            }
        }
    }
    vstd::set_lib::lemma_map_size(dom, img, f);
}

} // verus!
