//! The vote table of the music queue: for each song id, who upvoted and who
//! downvoted it.

use vstd::prelude::*;

use crate::playback::{clone_strings, empty_votes, names, score_of, SongVotes, VotesView};

verus! {

/// `names` without every occurrence of `user`, order kept.
pub open spec fn without_name(names: Seq<Seq<char>>, user: Seq<char>) -> Seq<Seq<char>>
    decreases names.len(),
{
    if names.len() == 0 {
        names
    } else {
        let rest = without_name(names.drop_last(), user);
        if names.last() == user {
            rest
        } else {
            rest.push(names.last())
        }
    }
}

/// The votes after `user` upvotes: any downvote of the user is taken back and
/// the user is added to the upvoters unless already there.
pub open spec fn with_upvote(v: VotesView, user: Seq<char>) -> VotesView {
    VotesView {
        up: if v.up.contains(user) {
            v.up
        } else {
            v.up.push(user)
        },
        down: without_name(v.down, user),
    }
}

/// The votes after `user` downvotes: any upvote of the user is taken back and
/// the user is added to the downvoters unless already there.
pub open spec fn with_downvote(v: VotesView, user: Seq<char>) -> VotesView {
    VotesView {
        up: without_name(v.up, user),
        down: if v.down.contains(user) {
            v.down
        } else {
            v.down.push(user)
        },
    }
}

/// The votes after `user` takes back an upvote.
pub open spec fn without_upvote(v: VotesView, user: Seq<char>) -> VotesView {
    VotesView { up: without_name(v.up, user), down: v.down }
}

/// The votes after `user` takes back a downvote.
pub open spec fn without_downvote(v: VotesView, user: Seq<char>) -> VotesView {
    VotesView { up: v.up, down: without_name(v.down, user) }
}

/// The votes recorded for a song id in a table, none when absent.
pub open spec fn votes_in(m: Map<Seq<char>, VotesView>, id: Seq<char>) -> VotesView {
    if m.contains_key(id) {
        m[id]
    } else {
        empty_votes()
    }
}

/// The net score of a song id in a table (zero when it has no votes).
pub open spec fn score_in(m: Map<Seq<char>, VotesView>, id: Seq<char>) -> int {
    score_of(votes_in(m, id))
}

pub open spec fn has_key(es: Seq<(String, SongVotes)>, k: Seq<char>) -> bool {
    exists|i: int| 0 <= i < es.len() && (#[trigger] es[i]).0@ == k
}

pub open spec fn unique_keys(es: Seq<(String, SongVotes)>) -> bool {
    forall|i: int, j: int|
        0 <= i < es.len() && 0 <= j < es.len() && i != j ==> (#[trigger] es[i]).0@ != (
        #[trigger] es[j]).0@
}

pub open spec fn key_index(es: Seq<(String, SongVotes)>, k: Seq<char>) -> int {
    choose|i: int| 0 <= i < es.len() && (#[trigger] es[i]).0@ == k
}

pub open spec fn table_map(es: Seq<(String, SongVotes)>) -> Map<Seq<char>, VotesView> {
    Map::new(|k: Seq<char>| has_key(es, k), |k: Seq<char>| es[key_index(es, k)].1@)
}

proof fn lemma_lookup(es: Seq<(String, SongVotes)>, i: int)
    requires
        unique_keys(es),
        0 <= i < es.len(),
    ensures
        table_map(es).contains_key(es[i].0@),
        table_map(es)[es[i].0@] == es[i].1@,
        key_index(es, es[i].0@) == i,
{
    assert(has_key(es, es[i].0@));
}

proof fn lemma_update(es: Seq<(String, SongVotes)>, i: int, e: (String, SongVotes))
    requires
        unique_keys(es),
        0 <= i < es.len(),
        e.0@ == es[i].0@,
    ensures
        unique_keys(es.update(i, e)),
        table_map(es.update(i, e)) == table_map(es).insert(e.0@, e.1@),
{
    let ns = es.update(i, e);
    assert(unique_keys(ns)) by {
        assert forall|a: int, b: int|
            0 <= a < ns.len() && 0 <= b < ns.len() && a != b implies (#[trigger] ns[a]).0@ != (
            #[trigger] ns[b]).0@ by {
            assert(ns[a].0@ == es[a].0@);
            assert(ns[b].0@ == es[b].0@);
        }
    }
    let m = table_map(es).insert(e.0@, e.1@);
    assert forall|k: Seq<char>| #[trigger] table_map(ns).contains_key(k) == m.contains_key(k) by {
        if has_key(es, k) {
            let j = key_index(es, k);
            assert(ns[j].0@ == k);
        }
        if has_key(ns, k) {
            let j = key_index(ns, k);
            assert(es[j].0@ == k);
        }
    }
    assert forall|k: Seq<char>| #[trigger] table_map(ns).contains_key(k) implies table_map(ns)[k]
        == m[k] by {
        let j = key_index(ns, k);
        lemma_lookup(ns, j);
        if k == e.0@ {
            lemma_lookup(ns, i);
        } else {
            assert(es[j].0@ == k);
            lemma_lookup(es, j);
        }
    }
    assert(table_map(ns) =~= m);
}

proof fn lemma_push(es: Seq<(String, SongVotes)>, e: (String, SongVotes))
    requires
        unique_keys(es),
        !has_key(es, e.0@),
    ensures
        unique_keys(es.push(e)),
        table_map(es.push(e)) == table_map(es).insert(e.0@, e.1@),
{
    let ns = es.push(e);
    assert(unique_keys(ns)) by {
        assert forall|a: int, b: int|
            0 <= a < ns.len() && 0 <= b < ns.len() && a != b implies (#[trigger] ns[a]).0@ != (
            #[trigger] ns[b]).0@ by {
            if a < es.len() && b < es.len() {
                assert(ns[a] == es[a]);
                assert(ns[b] == es[b]);
            } else if a < es.len() {
                assert(ns[a] == es[a]);
            } else {
                assert(ns[b] == es[b]);
            }
        }
    }
    let m = table_map(es).insert(e.0@, e.1@);
    assert forall|k: Seq<char>| #[trigger] table_map(ns).contains_key(k) == m.contains_key(k) by {
        if has_key(es, k) {
            let j = key_index(es, k);
            assert(ns[j] == es[j]);
        }
        if k == e.0@ {
            assert(ns[es.len() as int] == e);
        }
        if has_key(ns, k) {
            let j = key_index(ns, k);
            if j < es.len() {
                assert(ns[j] == es[j]);
            }
        }
    }
    assert forall|k: Seq<char>| #[trigger] table_map(ns).contains_key(k) implies table_map(ns)[k]
        == m[k] by {
        let j = key_index(ns, k);
        lemma_lookup(ns, j);
        if k == e.0@ {
            lemma_lookup(ns, es.len() as int);
        } else {
            assert(ns[j] == es[j]);
            lemma_lookup(es, j);
        }
    }
    assert(table_map(ns) =~= m);
}

proof fn lemma_remove(es: Seq<(String, SongVotes)>, i: int)
    requires
        unique_keys(es),
        0 <= i < es.len(),
    ensures
        unique_keys(es.remove(i)),
        table_map(es.remove(i)) == table_map(es).remove(es[i].0@),
{
    let ns = es.remove(i);
    let old_of = |a: int| if a < i { a } else { a + 1 };
    assert forall|a: int| 0 <= a < ns.len() implies #[trigger] ns[a] == es[old_of(a)] by {}
    assert(unique_keys(ns)) by {
        assert forall|a: int, b: int|
            0 <= a < ns.len() && 0 <= b < ns.len() && a != b implies (#[trigger] ns[a]).0@ != (
            #[trigger] ns[b]).0@ by {
            assert(ns[a] == es[old_of(a)]);
            assert(ns[b] == es[old_of(b)]);
        }
    }
    let m = table_map(es).remove(es[i].0@);
    assert forall|k: Seq<char>| #[trigger] table_map(ns).contains_key(k) == m.contains_key(k) by {
        if has_key(es, k) && k != es[i].0@ {
            let j = key_index(es, k);
            assert(j != i);
            if j < i {
                assert(ns[j] == es[j]);
            } else {
                assert(ns[j - 1] == es[j]);
            }
        }
        if has_key(ns, k) {
            let j = key_index(ns, k);
            assert(ns[j] == es[old_of(j)]);
            assert(old_of(j) != i);
        }
    }
    assert forall|k: Seq<char>| #[trigger] table_map(ns).contains_key(k) implies table_map(ns)[k]
        == m[k] by {
        let j = key_index(ns, k);
        lemma_lookup(ns, j);
        assert(ns[j] == es[old_of(j)]);
        lemma_lookup(es, old_of(j));
    }
    assert(table_map(ns) =~= m);
}

/// Whether `user` is in the list.
pub fn has_name(v: &Vec<String>, user: &String) -> (b: bool)
    ensures
        b == names(v@).contains(user@),
{
    let mut i: usize = 0;
    while i < v.len()
        invariant
            i <= v.len(),
            forall|j: int| 0 <= j < i ==> names(v@)[j] != user@,
        decreases v.len() - i,
    {
        if v[i] == *user {
            assert(names(v@)[i as int] == user@);
            return true;
        }
        i = i + 1;
    }
    false
}

/// The list without every occurrence of `user`.
pub fn remove_name(v: &Vec<String>, user: &String) -> (r: Vec<String>)
    ensures
        names(r@) == without_name(names(v@), user@),
{
    let mut r: Vec<String> = Vec::new();
    let mut i: usize = 0;
    while i < v.len()
        invariant
            i <= v.len(),
            names(r@) == without_name(names(v@).take(i as int), user@),
        decreases v.len() - i,
    {
        proof {
            assert(names(v@).take(i + 1).drop_last() =~= names(v@).take(i as int));
        }
        if v[i] != *user {
            r.push(v[i].clone());
            assert(names(r@) =~= without_name(names(v@).take(i as int), user@).push(v[i as int]@));
        }
        i = i + 1;
    }
    assert(names(v@).take(v.len() as int) =~= names(v@));
    r
}

/// For every song id, who upvoted and who downvoted it. No id appears twice.
pub struct VoteTable {
    entries: Vec<(String, SongVotes)>,
}

impl View for VoteTable {
    type V = Map<Seq<char>, VotesView>;

    closed spec fn view(&self) -> Map<Seq<char>, VotesView> {
        table_map(self.entries@)
    }
}

impl VoteTable {
    #[verifier::type_invariant]
    closed spec fn ids_unique(self) -> bool {
        unique_keys(self.entries@)
    }

    /// An empty table.
    pub fn new() -> (t: Self)
        ensures
            t@ == Map::<Seq<char>, VotesView>::empty(),
    {
        let t = VoteTable { entries: Vec::new() };
        assert(t@ =~= Map::<Seq<char>, VotesView>::empty());
        t
    }

    fn find(&self, id: &String) -> (r: Option<usize>)
        ensures
            match r {
                Some(i) => i < self.entries@.len() && self.entries@[i as int].0@ == id@,
                None => !has_key(self.entries@, id@),
            },
    {
        let mut i: usize = 0;
        while i < self.entries.len()
            invariant
                i <= self.entries@.len(),
                forall|j: int| 0 <= j < i ==> (#[trigger] self.entries@[j]).0@ != id@,
            decreases self.entries.len() - i,
        {
            if self.entries[i].0 == *id {
                return Some(i);
            }
            i = i + 1;
        }
        None
    }

    /// The number of upvotes and downvotes of a song (zero when it has none).
    pub fn counts(&self, id: &String) -> (r: (usize, usize))
        ensures
            r.0 == votes_in(self@, id@).up.len(),
            r.1 == votes_in(self@, id@).down.len(),
    {
        proof {
            use_type_invariant(self);
        }
        match self.find(id) {
            Some(i) => {
                proof {
                    lemma_lookup(self.entries@, i as int);
                }
                (self.entries[i].1.upvotes.len(), self.entries[i].1.downvotes.len())
            },
            None => (0, 0),
        }
    }

    /// The votes of a song, or no votes when it has none.
    pub fn get(&self, id: &String) -> (v: SongVotes)
        ensures
            v@ == votes_in(self@, id@),
    {
        proof {
            use_type_invariant(self);
        }
        match self.find(id) {
            Some(i) => {
                proof {
                    lemma_lookup(self.entries@, i as int);
                }
                self.entries[i].1.clone()
            },
            None => SongVotes::default(),
        }
    }

    /// Whether the table records votes for the song.
    pub fn contains(&self, id: &String) -> (b: bool)
        ensures
            b == self@.contains_key(id@),
    {
        self.find(id).is_some()
    }

    /// Sets the votes of a song.
    pub fn insert(&mut self, id: String, votes: SongVotes)
        ensures
            final(self)@ == old(self)@.insert(id@, votes@),
    {
        proof {
            use_type_invariant(&*self);
        }
        let mut es: Vec<(String, SongVotes)> = Vec::new();
        std::mem::swap(&mut es, &mut self.entries);
        let ghost old_es = es@;
        match self.find_in(&es, &id) {
            Some(i) => {
                proof {
                    lemma_update(old_es, i as int, (id, votes));
                }
                es.set(i, (id, votes));
            },
            None => {
                proof {
                    lemma_push(old_es, (id, votes));
                }
                es.push((id, votes));
            },
        }
        self.entries = es;
    }

    fn find_in(&self, es: &Vec<(String, SongVotes)>, id: &String) -> (r: Option<usize>)
        ensures
            match r {
                Some(i) => i < es@.len() && es@[i as int].0@ == id@,
                None => !has_key(es@, id@),
            },
    {
        let mut i: usize = 0;
        while i < es.len()
            invariant
                i <= es@.len(),
                forall|j: int| 0 <= j < i ==> (#[trigger] es@[j]).0@ != id@,
            decreases es.len() - i,
        {
            if es[i].0 == *id {
                return Some(i);
            }
            i = i + 1;
        }
        None
    }

    /// Forgets the votes of a song.
    pub fn remove(&mut self, id: &String)
        ensures
            final(self)@ == old(self)@.remove(id@),
    {
        proof {
            use_type_invariant(&*self);
        }
        let mut es: Vec<(String, SongVotes)> = Vec::new();
        std::mem::swap(&mut es, &mut self.entries);
        let ghost old_es = es@;
        match self.find_in(&es, &id) {
            Some(i) => {
                proof {
                    lemma_remove(old_es, i as int);
                }
                es.remove(i);
            },
            None => {
                assert(table_map(old_es) =~= table_map(old_es).remove(id@));
            },
        }
        self.entries = es;
    }

    /// Records an upvote of `user` for the song.
    pub fn upvote(&mut self, id: &String, user: &String)
        ensures
            final(self)@ == old(self)@.insert(id@, with_upvote(votes_in(old(self)@, id@), user@)),
    {
        let v = self.get(id);
        let down = remove_name(&v.downvotes, user);
        let mut up = v.upvotes;
        if !has_name(&up, user) {
            up.push(user.clone());
            assert(names(up@) =~= names(v.upvotes@).push(user@));
        }
        let nv = SongVotes { upvotes: up, downvotes: down };
        assert(nv@ =~= with_upvote(votes_in(old(self)@, id@), user@));
        self.insert(id.clone(), nv);
    }

    /// Records a downvote of `user` for the song.
    pub fn downvote(&mut self, id: &String, user: &String)
        ensures
            final(self)@ == old(self)@.insert(
                id@,
                with_downvote(votes_in(old(self)@, id@), user@),
            ),
    {
        let v = self.get(id);
        let up = remove_name(&v.upvotes, user);
        let mut down = v.downvotes;
        if !has_name(&down, user) {
            down.push(user.clone());
            assert(names(down@) =~= names(v.downvotes@).push(user@));
        }
        let nv = SongVotes { upvotes: up, downvotes: down };
        assert(nv@ =~= with_downvote(votes_in(old(self)@, id@), user@));
        self.insert(id.clone(), nv);
    }

    /// Takes back an upvote of `user`; a song without votes is left alone.
    pub fn remove_upvote(&mut self, id: &String, user: &String)
        ensures
            old(self)@.contains_key(id@) ==> final(self)@ == old(self)@.insert(
                id@,
                without_upvote(old(self)@[id@], user@),
            ),
            !old(self)@.contains_key(id@) ==> final(self)@ == old(self)@,
    {
        if self.contains(id) {
            let v = self.get(id);
            let nv = SongVotes { upvotes: remove_name(&v.upvotes, user), downvotes: v.downvotes };
            assert(nv@ =~= without_upvote(old(self)@[id@], user@));
            self.insert(id.clone(), nv);
        }
    }

    /// Takes back a downvote of `user`; a song without votes is left alone.
    pub fn remove_downvote(&mut self, id: &String, user: &String)
        ensures
            old(self)@.contains_key(id@) ==> final(self)@ == old(self)@.insert(
                id@,
                without_downvote(old(self)@[id@], user@),
            ),
            !old(self)@.contains_key(id@) ==> final(self)@ == old(self)@,
    {
        if self.contains(id) {
            let v = self.get(id);
            let nv = SongVotes { upvotes: v.upvotes, downvotes: remove_name(&v.downvotes, user) };
            assert(nv@ =~= without_downvote(old(self)@[id@], user@));
            self.insert(id.clone(), nv);
        }
    }

    /// Keeps only the votes of the songs whose ids are listed.
    pub fn retain_ids(&mut self, ids: &Vec<String>)
        ensures
            final(self)@ == old(self)@.restrict(names(ids@).to_set()),
    {
        proof {
            use_type_invariant(&*self);
        }
        let ghost keep = names(ids@).to_set();
        let mut kept: Vec<(String, SongVotes)> = Vec::new();
        let mut i: usize = 0;
        while i < self.entries.len()
            invariant
                i <= self.entries@.len(),
                unique_keys(self.entries@),
                unique_keys(kept@),
                keep == names(ids@).to_set(),
                table_map(kept@) == table_map(self.entries@.take(i as int)).restrict(keep),
                forall|j: int|
                    0 <= j < kept@.len() ==> exists|m: int|
                        0 <= m < i && (#[trigger] kept@[j]).0@ == (#[trigger] self.entries@[m]).0@,
            decreases self.entries.len() - i,
        {
            let ghost es = self.entries@;
            proof {
                lemma_unique_take(es, i as int);
                assert(es.take(i + 1) =~= es.take(i as int).push(es[i as int]));
                assert(!has_key(es.take(i as int), es[i as int].0@)) by {
                    if has_key(es.take(i as int), es[i as int].0@) {
                        let m = key_index(es.take(i as int), es[i as int].0@);
                        assert(es.take(i as int)[m] == es[m]);
                    }
                }
                lemma_push(es.take(i as int), es[i as int]);
            }
            let e = &self.entries[i];
            if has_name(ids, &e.0) {
                let ghost before = kept@;
                proof {
                    assert(!has_key(before, es[i as int].0@)) by {
                        if has_key(before, es[i as int].0@) {
                            let j = key_index(before, es[i as int].0@);
                            let m = choose|m: int|
                                0 <= m < i && (#[trigger] before[j]).0@ == (
                                #[trigger] es[m]).0@;
                        }
                    }
                    assert(keep.contains(es[i as int].0@));
                }
                kept.push((e.0.clone(), e.1.clone()));
                proof {
                    lemma_push(before, kept@[before.len() as int]);
                    assert(kept@ =~= before.push(kept@[before.len() as int]));
                    assert(table_map(kept@) =~= table_map(es.take(i + 1)).restrict(keep));
                    assert forall|j: int| 0 <= j < kept@.len() implies exists|m: int|
                        0 <= m < i + 1 && (#[trigger] kept@[j]).0@ == (#[trigger] es[m]).0@ by {
                        if j < before.len() {
                            assert(kept@[j] == before[j]);
                            let m = choose|m: int|
                                0 <= m < i && (#[trigger] before[j]).0@ == (#[trigger] es[m]).0@;
                            assert(kept@[j].0@ == es[m].0@);
                        } else {
                            assert(kept@[j].0@ == es[i as int].0@);
                        }
                    }
                }
            } else {
                proof {
                    assert(!keep.contains(es[i as int].0@));
                    assert(table_map(kept@) =~= table_map(es.take(i + 1)).restrict(keep));
                }
            }
            i = i + 1;
        }
        proof {
            assert(self.entries@.take(self.entries@.len() as int) =~= self.entries@);
        }
        self.entries = kept;
    }

    /// A table built from (song id, votes) pairs; a later pair for the same
    /// id replaces an earlier one.
    pub fn from_vec(pairs: Vec<(String, SongVotes)>) -> (t: Self)
        ensures
            t@ == pairs_to_map(pairs@),
    {
        let mut t = VoteTable::new();
        let ghost all = pairs@;
        let mut i: usize = 0;
        proof {
            assert(all.take(0) =~= Seq::<(String, SongVotes)>::empty());
            assert(pairs_to_map(all.take(0)) =~= Map::<Seq<char>, VotesView>::empty());
        }
        while i < pairs.len()
            invariant
                pairs@ == all,
                i <= all.len(),
                t@ == pairs_to_map(all.take(i as int)),
            decreases pairs.len() - i,
        {
            assert(all.take(i + 1).drop_last() =~= all.take(i as int));
            t.insert(pairs[i].0.clone(), pairs[i].1.clone());
            i = i + 1;
        }
        assert(all.take(all.len() as int) =~= all);
        t
    }

    /// All recorded votes as (song id, votes) pairs.
    pub fn to_vec(&self) -> (r: Vec<(String, SongVotes)>)
        ensures
            r@.len() == self@.dom().len(),
            forall|i: int| #![auto] 0 <= i < r@.len() ==> self@.contains_key(r@[i].0@) && self@[r@[i].0@] == r@[i].1@,
    {
        proof {
            use_type_invariant(self);
        }
        let mut r: Vec<(String, SongVotes)> = Vec::new();
        let mut i: usize = 0;
        while i < self.entries.len()
            invariant
                i <= self.entries@.len(),
                unique_keys(self.entries@),
                r@.len() == i,
                forall|j: int| #![auto] 0 <= j < i ==> r@[j].0@ == self.entries@[j].0@ && r@[j].1@ == self.entries@[j].1@,
            decreases self.entries.len() - i,
        {
            let e = &self.entries[i];
            r.push((e.0.clone(), e.1.clone()));
            i = i + 1;
        }
        proof {
            assert forall|j: int| #![auto] 0 <= j < r@.len() implies self@.contains_key(r@[j].0@) && self@[r@[j].0@] == r@[j].1@ by {
                lemma_lookup(self.entries@, j);
            }
            lemma_dom_len(self.entries@);
        }
        r
    }
}

/// The table that a list of (song id, votes) pairs describes; a later pair
/// for an id replaces an earlier one.
pub open spec fn pairs_to_map(s: Seq<(String, SongVotes)>) -> Map<Seq<char>, VotesView>
    decreases s.len(),
{
    if s.len() == 0 {
        Map::empty()
    } else {
        pairs_to_map(s.drop_last()).insert(s.last().0@, s.last().1@)
    }
}

proof fn lemma_unique_take(es: Seq<(String, SongVotes)>, i: int)
    requires
        unique_keys(es),
        0 <= i <= es.len(),
    ensures
        unique_keys(es.take(i)),
{
    let p = es.take(i);
    assert forall|a: int, b: int|
        0 <= a < p.len() && 0 <= b < p.len() && a != b implies (#[trigger] p[a]).0@ != (
        #[trigger] p[b]).0@ by {
        assert(p[a] == es[a]);
        assert(p[b] == es[b]);
    }
}

proof fn lemma_dom_len(es: Seq<(String, SongVotes)>)
    requires
        unique_keys(es),
    ensures
        table_map(es).dom().len() == es.len(),
        table_map(es).dom().finite(),
    decreases es.len(),
{
    if es.len() == 0 {
        assert(table_map(es).dom() =~= Set::<Seq<char>>::empty());
    } else {
        let p = es.drop_last();
        assert(unique_keys(p)) by {
            assert forall|a: int, b: int|
                0 <= a < p.len() && 0 <= b < p.len() && a != b implies (#[trigger] p[a]).0@ != (
                #[trigger] p[b]).0@ by {
                assert(p[a] == es[a]);
                assert(p[b] == es[b]);
            }
        }
        lemma_dom_len(p);
        assert(!has_key(p, es.last().0@)) by {
            if has_key(p, es.last().0@) {
                let j = key_index(p, es.last().0@);
                assert(p[j] == es[j]);
                assert(es[es.len() - 1] == es.last());
            }
        }
        lemma_push(p, es.last());
        assert(p.push(es.last()) =~= es);
    }
}

} // verus!
