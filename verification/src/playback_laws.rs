//! What holds of the music queue across its operations.

use vstd::prelude::*;

use crate::playback::{Song, VotesView};
use crate::event::Effect;
use crate::playback::PlaybackAction;
use crate::playback_model::{
    after_current, best_index, enqueue_model, handle_effects, handle_model, ids, in_queue,
    next_model, prev_model, promote, score_at, upcoming, PlaybackModel,
};
use crate::votes::{with_downvote, with_upvote, without_name, without_downvote, without_upvote};

verus! {

/// No two songs of the list share an id.
pub open spec fn distinct_ids(q: Seq<Song>) -> bool {
    forall|i: int, j: int| 0 <= i < j < q.len() ==> (#[trigger] q[i]).id@ != (#[trigger] q[j]).id@
}

/// Enqueueing never puts a second song with the same id into the queue, and
/// afterwards a song with the id of the requested one is queued.
pub proof fn law_enqueue_keeps_ids_distinct(m: PlaybackModel, song: Song)
    requires
        distinct_ids(m.queued),
    ensures
        distinct_ids(enqueue_model(m, song).queued),
        in_queue(enqueue_model(m, song).queued, song),
{
    let q = m.queued;
    if !in_queue(q, song) {
        let q2 = q.push(song);
        assert(enqueue_model(m, song).queued == q2);
        assert forall|i: int, j: int| 0 <= i < j < q2.len() implies (#[trigger] q2[i]).id@ != (
        #[trigger] q2[j]).id@ by {
            if j == q.len() {
                assert(q2[i] == q[i]);
            } else {
                assert(q2[i] == q[i] && q2[j] == q[j]);
            }
        }
        assert(q2[q.len() as int] == song);
    }
}

/// The song that plays next after a song ends has the highest score of the
/// upcoming songs, and comes first among the songs with that score.
pub proof fn law_best_voted_plays_next(q: Seq<Song>, votes: Map<Seq<char>, VotesView>, n: int)
    requires
        1 <= n <= q.len(),
    ensures
        0 <= best_index(q, votes, n) < n,
        forall|j: int|
            0 <= j < best_index(q, votes, n) ==> #[trigger] score_at(q, votes, j) < score_at(
                q,
                votes,
                best_index(q, votes, n),
            ),
        forall|j: int|
            best_index(q, votes, n) <= j < n ==> #[trigger] score_at(q, votes, j) <= score_at(
                q,
                votes,
                best_index(q, votes, n),
            ),
    decreases n,
{
    if n > 1 {
        law_best_voted_plays_next(q, votes, n - 1);
    }
}

/// After advancing, votes are only kept for songs that are still queued.
pub proof fn law_votes_only_for_queued(m: PlaybackModel, remove_current: bool, id: Seq<char>)
    requires
        next_model(m, remove_current).votes.contains_key(id),
    ensures
        ids(next_model(m, remove_current).queued).contains(id),
{
    let r = after_current(m, remove_current);
    assert(ids(r.queued).to_set().contains(id));
    let k = choose|k: int| 0 <= k < ids(r.queued).len() && ids(r.queued)[k] == id;
    if r.queued.len() > 0 {
        let b = best_index(r.queued, r.votes, r.queued.len() as int);
        law_best_voted_plays_next(r.queued, r.votes, r.queued.len() as int);
        let p = promote(r.queued, b);
        if b == 0 {
            assert(ids(p)[k] == id);
        } else {
            r.queued.remove_ensures(b);
            if k == b {
                assert(ids(p)[0] == id);
            } else if k < b {
                assert(p[k + 1] == r.queued[k]);
                assert(ids(p)[k + 1] == id);
            } else {
                assert(p[k] == r.queued[k]);
                assert(ids(p)[k] == id);
            }
        }
    }
}

/// Advancing to the next song (without removing the current one) neither
/// loses nor duplicates a song: played and queued songs together stay the
/// same.
pub proof fn law_next_keeps_songs(m: PlaybackModel)
    ensures
        next_model(m, false).played.to_multiset().add(next_model(m, false).queued.to_multiset())
            == m.played.to_multiset().add(m.queued.to_multiset()),
{
    broadcast use vstd::seq_lib::group_to_multiset_ensures;

    let n = next_model(m, false);
    if m.queued.len() > 0 {
        let q = m.queued;
        let rest = q.drop_first();
        assert(q.remove(0) =~= rest);
        assert(q.to_multiset().remove(q[0]).insert(q[0]) =~= q.to_multiset()) by {
            assert(q.to_multiset().count(q[0]) > 0) by {
                assert(q.contains(q[0]));
            }
        }
        let r = after_current(m, false);
        assert(r.queued == rest);
        if rest.len() > 0 {
            let b = best_index(rest, r.votes, rest.len() as int);
            law_best_voted_plays_next(rest, r.votes, rest.len() as int);
            if b > 0 {
                assert(promote(rest, b) =~= rest.remove(b).insert(0, rest[b]));
                assert(rest.to_multiset().remove(rest[b]).insert(rest[b]) =~= rest.to_multiset())
                    by {
                    assert(rest.contains(rest[b]));
                }
            }
            assert(n.queued.to_multiset() =~= rest.to_multiset());
        }
        assert(n.played =~= m.played.push(q[0]));
        assert(n.played.to_multiset().add(n.queued.to_multiset()) =~= m.played.to_multiset().add(
            m.queued.to_multiset(),
        ));
    }
}

/// Going back to the previous song neither loses nor duplicates a song.
pub proof fn law_prev_keeps_songs(m: PlaybackModel)
    ensures
        prev_model(m).played.to_multiset().add(prev_model(m).queued.to_multiset())
            == m.played.to_multiset().add(m.queued.to_multiset()),
{
    broadcast use vstd::seq_lib::group_to_multiset_ensures;

    if m.played.len() > 0 {
        let p = m.played;
        let last = p.last();
        assert(p =~= p.drop_last().push(last));
        assert(seq![last] + m.queued =~= m.queued.insert(0, last));
        assert(prev_model(m).played.to_multiset().add(prev_model(m).queued.to_multiset())
            =~= m.played.to_multiset().add(m.queued.to_multiset()));
    }
}

/// With no votes recorded, going back right after a song finished restores
/// the queue and the played songs as they were.
pub proof fn law_prev_undoes_next(m: PlaybackModel)
    requires
        m.queued.len() > 0,
        m.votes.dom().is_empty(),
    ensures
        prev_model(next_model(m, false)).queued == m.queued,
        prev_model(next_model(m, false)).played == m.played,
{
    let r = after_current(m, false);
    let rest = r.queued;
    if rest.len() > 0 {
        let b = best_index(rest, r.votes, rest.len() as int);
        law_best_voted_plays_next(rest, r.votes, rest.len() as int);
        assert forall|j: int| 0 <= j < rest.len() implies #[trigger] score_at(rest, r.votes, j) == 0 by {
            assert(!r.votes.contains_key(rest[j].id@));
        }
        if b > 0 {
            assert(score_at(rest, r.votes, 0) < score_at(rest, r.votes, b));
        }
    }
    let n = next_model(m, false);
    assert(n.played =~= m.played.push(m.queued[0]));
    assert(n.played.drop_last() =~= m.played);
    assert(seq![m.queued[0]] + rest =~= m.queued);
}

/// Nobody votes twice in the same direction, and nobody votes both ways.
pub open spec fn votes_well_formed(v: VotesView) -> bool {
    &&& v.up.no_duplicates()
    &&& v.down.no_duplicates()
    &&& forall|u: Seq<char>| v.up.contains(u) ==> !v.down.contains(u)
}

/// Taking a name out of a list keeps every other name and repeats none.
pub proof fn lemma_without_name(names: Seq<Seq<char>>, user: Seq<char>)
    ensures
        forall|x: Seq<char>|
            #[trigger] without_name(names, user).contains(x) <==> names.contains(x) && x != user,
        names.no_duplicates() ==> without_name(names, user).no_duplicates(),
    decreases names.len(),
{
    if names.len() > 0 {
        let init = names.drop_last();
        let last = names.last();
        lemma_without_name(init, user);
        let rest = without_name(init, user);
        assert(names =~= init.push(last));
        assert forall|x: Seq<char>| names.contains(x) <==> init.contains(x) || x == last by {
            if names.contains(x) {
                let k = choose|k: int| 0 <= k < names.len() && names[k] == x;
                if k < init.len() {
                    assert(init[k] == x);
                }
            }
            if init.contains(x) {
                let k = choose|k: int| 0 <= k < init.len() && init[k] == x;
                assert(names[k] == x);
            }
            if x == last {
                assert(names[names.len() - 1] == x);
            }
        }
        if last != user {
            let w = rest.push(last);
            assert forall|x: Seq<char>| w.contains(x) <==> rest.contains(x) || x == last by {
                if w.contains(x) {
                    let k = choose|k: int| 0 <= k < w.len() && w[k] == x;
                    if k < rest.len() {
                        assert(rest[k] == x);
                    }
                }
                if rest.contains(x) {
                    let k = choose|k: int| 0 <= k < rest.len() && rest[k] == x;
                    assert(w[k] == x);
                }
                if x == last {
                    assert(w[w.len() - 1] == x);
                }
            }
            if names.no_duplicates() {
                assert(init.no_duplicates()) by {
                    assert forall|i: int, j: int|
                        0 <= i < init.len() && 0 <= j < init.len() && i != j implies init[i]
                        != init[j] by {
                        assert(names[i] == init[i] && names[j] == init[j]);
                    }
                }
                assert(!init.contains(last)) by {
                    if init.contains(last) {
                        let k = choose|k: int| 0 <= k < init.len() && init[k] == last;
                        assert(names[k] == names[names.len() - 1]);
                    }
                }
                assert(w.no_duplicates()) by {
                    assert forall|i: int, j: int|
                        0 <= i < w.len() && 0 <= j < w.len() && i != j implies w[i] != w[j] by {
                        if i < rest.len() && j < rest.len() {
                        } else if i < rest.len() {
                            assert(rest.contains(w[i]));
                        } else if j < rest.len() {
                            assert(rest.contains(w[j]));
                        }
                    }
                }
            }
        } else {
            if names.no_duplicates() {
                assert(init.no_duplicates()) by {
                    assert forall|i: int, j: int|
                        0 <= i < init.len() && 0 <= j < init.len() && i != j implies init[i]
                        != init[j] by {
                        assert(names[i] == init[i] && names[j] == init[j]);
                    }
                }
            }
        }
    }
}

/// Appending a name not yet listed repeats none.
proof fn lemma_push_new_name(names: Seq<Seq<char>>, user: Seq<char>)
    requires
        names.no_duplicates(),
        !names.contains(user),
    ensures
        names.push(user).no_duplicates(),
        forall|x: Seq<char>| #[trigger] names.push(user).contains(x) <==> names.contains(x) || x == user,
{
    let w = names.push(user);
    assert forall|x: Seq<char>| w.contains(x) <==> names.contains(x) || x == user by {
        if w.contains(x) {
            let k = choose|k: int| 0 <= k < w.len() && w[k] == x;
            if k < names.len() {
                assert(names[k] == x);
            }
        }
        if names.contains(x) {
            let k = choose|k: int| 0 <= k < names.len() && names[k] == x;
            assert(w[k] == x);
        }
        if x == user {
            assert(w[w.len() - 1] == x);
        }
    }
    assert forall|i: int, j: int| 0 <= i < w.len() && 0 <= j < w.len() && i != j implies w[i] != w[j] by {
        if i < names.len() && j < names.len() {
        } else if i < names.len() {
            assert(names.contains(w[i]));
        } else if j < names.len() {
            assert(names.contains(w[j]));
        }
    }
}

/// After `user` upvotes, the user is among the upvoters and not among the
/// downvoters, nobody else's vote changed, and nobody votes twice.
pub proof fn law_upvote(v: VotesView, user: Seq<char>)
    requires
        votes_well_formed(v),
    ensures
        votes_well_formed(with_upvote(v, user)),
        with_upvote(v, user).up.contains(user),
        !with_upvote(v, user).down.contains(user),
        forall|x: Seq<char>|
            x != user ==> (with_upvote(v, user).up.contains(x) <==> v.up.contains(x)) && (
            with_upvote(v, user).down.contains(x) <==> v.down.contains(x)),
{
    lemma_without_name(v.down, user);
    if !v.up.contains(user) {
        lemma_push_new_name(v.up, user);
    }
}

/// After `user` downvotes, the user is among the downvoters and not among
/// the upvoters, nobody else's vote changed, and nobody votes twice.
pub proof fn law_downvote(v: VotesView, user: Seq<char>)
    requires
        votes_well_formed(v),
    ensures
        votes_well_formed(with_downvote(v, user)),
        with_downvote(v, user).down.contains(user),
        !with_downvote(v, user).up.contains(user),
        forall|x: Seq<char>|
            x != user ==> (with_downvote(v, user).up.contains(x) <==> v.up.contains(x)) && (
            with_downvote(v, user).down.contains(x) <==> v.down.contains(x)),
{
    lemma_without_name(v.up, user);
    if !v.down.contains(user) {
        lemma_push_new_name(v.down, user);
    }
}

/// Taking back a vote removes exactly that user's vote in that direction.
pub proof fn law_take_back_votes(v: VotesView, user: Seq<char>)
    requires
        votes_well_formed(v),
    ensures
        votes_well_formed(without_upvote(v, user)),
        votes_well_formed(without_downvote(v, user)),
        !without_upvote(v, user).up.contains(user),
        !without_downvote(v, user).down.contains(user),
        forall|x: Seq<char>|
            x != user ==> (without_upvote(v, user).up.contains(x) <==> v.up.contains(x)),
        forall|x: Seq<char>|
            x != user ==> (without_downvote(v, user).down.contains(x) <==> v.down.contains(x)),
{
    lemma_without_name(v.up, user);
    lemma_without_name(v.down, user);
}

/// An upvote counts unless the voter queued that very song: when no queued
/// song has both the voted id and the voter as the one who queued it, the
/// song's upvoters afterwards include the voter, the voter does not also
/// downvote it, and the state is saved (the one effect). Only upvoting a
/// song one queued oneself is ignored: nothing changes and nothing happens.
pub proof fn law_upvote_counts_unless_own(m: PlaybackModel, song_id: String, user: String, effs: Seq<Effect>)
    requires
        handle_effects(effs, m, PlaybackAction::Upvote { song_id, user }),
    ensures
        (forall|i: int|
            0 <= i < m.queued.len() ==> !((#[trigger] m.queued[i]).id@ == song_id@
                && m.queued[i].queued_by@ == user@)) ==> {
            let after = handle_model(m, PlaybackAction::Upvote { song_id, user });
            &&& after.votes.contains_key(song_id@)
            &&& after.votes[song_id@].up.contains(user@)
            &&& !after.votes[song_id@].down.contains(user@)
            &&& after.queued == m.queued
            &&& effs == seq![Effect::Persist]
        },
        (exists|i: int|
            0 <= i < m.queued.len() && (#[trigger] m.queued[i]).id@ == song_id@
                && m.queued[i].queued_by@ == user@) ==> handle_model(
            m,
            PlaybackAction::Upvote { song_id, user },
        ) == m && effs.len() == 0,
{
    let v = crate::votes::votes_in(m.votes, song_id@);
    lemma_without_name(v.down, user@);
    if !v.up.contains(user@) {
        assert(v.up.push(user@)[v.up.len() as int] == user@);
    }
    if forall|i: int|
        0 <= i < m.queued.len() ==> !((#[trigger] m.queued[i]).id@ == song_id@
            && m.queued[i].queued_by@ == user@) {
        assert(effs =~= seq![Effect::Persist]);
    }
}

} // verus!
