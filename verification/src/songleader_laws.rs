//! What holds of the songleader across its operations.

use vstd::prelude::*;

use crate::songbook::SongbookSong;
use crate::songleader::{
    after_pop, all_songs, first_with_id, has_id, pick_range, popped, request_refused,
    nicks_distinct, with_request, ModeView, SongleaderAction, SongleaderModel,
};
use crate::songleader_model::{
    begun, bingo_model, fresh_tempo, handled, handled_effects, help_text, in_mode, with_nick,
};
use crate::event::{Effect, Event};
use crate::message::{MessageAction, Platform, RichContent};

verus! {

/// A nick that already typed the command does not count again, and the
/// nicks stay free of repeats.
pub proof fn law_each_nick_counts_once(nicks: Seq<Seq<char>>, nick: Seq<char>)
    ensures
        with_nick(with_nick(nicks, nick), nick) == with_nick(nicks, nick),
        with_nick(nicks, nick).contains(nick),
        with_nick(nicks, nick).len() <= nicks.len() + 1,
        nicks.contains(nick) ==> with_nick(nicks, nick) == nicks,
        nicks.no_duplicates() ==> with_nick(nicks, nick).no_duplicates(),
{
    if !nicks.contains(nick) {
        let w = nicks.push(nick);
        assert(w[nicks.len() as int] == nick);
        assert(w.contains(nick));
        if nicks.no_duplicates() {
            assert forall|i: int, j: int| 0 <= i < w.len() && 0 <= j < w.len() && i != j implies w[i] != w[j] by {
                if i < nicks.len() && j < nicks.len() {
                } else if i < nicks.len() {
                    assert(nicks.contains(w[i]));
                } else if j < nicks.len() {
                    assert(nicks.contains(w[j]));
                }
            }
        }
    }
}

/// No two listed songs (first songs, requests, backup songs) share an id.
pub open spec fn distinct_song_ids(s: Seq<SongbookSong>) -> bool {
    forall|i: int, j: int| 0 <= i < j < s.len() ==> (#[trigger] s[i]).id@ != (#[trigger] s[j]).id@
}

/// Taking the next song to sing removes exactly that song from the lists:
/// the songs listed before are those listed after plus the one taken.
pub proof fn law_pop_takes_one_song(m: SongleaderModel, pick: int)
    requires
        0 <= pick < pick_range(m),
    ensures
        match popped(m, pick) {
            Some(song) => all_songs(m).to_multiset() == all_songs(after_pop(m, pick)).to_multiset().insert(song),
            None => all_songs(m).len() == 0 && after_pop(m, pick) == m,
        },
{
    broadcast use vstd::seq_lib::group_to_multiset_ensures;

    let a = all_songs(m);
    if m.first.len() > 0 {
        let n = after_pop(m, pick);
        assert(a.remove(0) =~= all_songs(n));
        assert(a.to_multiset().remove(a[0]).insert(a[0]) =~= a.to_multiset()) by {
            assert(a.contains(a[0]));
        }
    } else if m.requests.len() > 0 {
        let n = after_pop(m, pick);
        let k = m.first.len() + pick;
        assert(a.remove(k) =~= all_songs(n));
        assert(a[k] == m.requests[pick]);
        assert(a.to_multiset().remove(a[k]).insert(a[k]) =~= a.to_multiset()) by {
            assert(a.contains(a[k]));
        }
    } else if m.backup.len() > 0 {
        let n = after_pop(m, pick);
        let k = m.first.len() + m.requests.len() + pick;
        assert(a.remove(k) =~= all_songs(n));
        assert(a[k] == m.backup[pick]);
        assert(a.to_multiset().remove(a[k]).insert(a[k]) =~= a.to_multiset()) by {
            assert(a.contains(a[k]));
        }
    } else {
        assert(a.len() == 0);
    }
}

/// A request never lists a song twice: when no two listed songs share an
/// id, the same holds after any request, refused or not.
pub proof fn law_requests_never_duplicate(m: SongleaderModel, song: SongbookSong)
    requires
        distinct_song_ids(all_songs(m)),
    ensures
        request_refused(m, song) || distinct_song_ids(all_songs(with_request(m, song))),
{
    if !request_refused(m, song) {
        let a = all_songs(m);
        let n = with_request(m, song);
        let b = all_songs(n);
        let f = m.first.len() as int;
        let r = m.requests.len() as int;
        lemma_first_with_id_found(m.backup, song.id@, m.backup.len() as int);
        match first_with_id(m.backup, song.id@, m.backup.len() as int) {
            Some(i) => {
                // the only song with that id was the backup copy, which left
                assert(b =~= a.remove(f + r + i).insert(f + r, song)) by {
                    assert(n.backup == m.backup.remove(i));
                }
                let k = f + r + i;
                assert(a[k].id@ == song.id@);
                let a2 = a.remove(k);
                assert forall|x: int| 0 <= x < a2.len() implies (#[trigger] a2[x]).id@ != song.id@ by {
                    if x < k {
                        assert(a2[x] == a[x]);
                    } else {
                        assert(a2[x] == a[x + 1]);
                    }
                }
                assert forall|x: int, y: int| 0 <= x < y < b.len() implies (#[trigger] b[x]).id@ != (#[trigger] b[y]).id@ by {
                    let ins = f + r;
                    if x < ins && y < ins {
                        assert(b[x] == a2[x] && b[y] == a2[y]);
                        assert(a2[x] == a[x] && a2[y] == a[y]);
                    } else if y == ins {
                        assert(b[x] == a2[x]);
                    } else if x == ins {
                        assert(b[y] == a2[y - 1]);
                    } else if x < ins {
                        assert(b[x] == a2[x] && b[y] == a2[y - 1]);
                        let xa = if x < k { x } else { x + 1 };
                        let ya = if y - 1 < k { y - 1 } else { y };
                        assert(a2[x] == a[xa] && a2[y - 1] == a[ya]);
                    } else {
                        assert(b[x] == a2[x - 1] && b[y] == a2[y - 1]);
                        let xa = if x - 1 < k { x - 1 } else { x };
                        let ya = if y - 1 < k { y - 1 } else { y };
                        assert(a2[x - 1] == a[xa] && a2[y - 1] == a[ya]);
                    }
                }
            },
            None => {
                // the song was not listed at all
                assert(!has_id(a, song.id@));
                assert(b =~= a.insert(f + r, song));
                assert forall|x: int, y: int| 0 <= x < y < b.len() implies (#[trigger] b[x]).id@ != (#[trigger] b[y]).id@ by {
                    let ins = f + r;
                    if y < ins {
                        assert(b[x] == a[x] && b[y] == a[y]);
                    } else if y == ins {
                        assert(b[x] == a[x]);
                    } else if x == ins {
                        assert(b[y] == a[y - 1]);
                    } else if x < ins {
                        assert(b[x] == a[x] && b[y] == a[y - 1]);
                    } else {
                        assert(b[x] == a[x - 1] && b[y] == a[y - 1]);
                    }
                }
            },
        }
    }
}

/// A tempo round: once tempo mode has begun, three different nicks typing
/// tempo (whenever they do, and whatever the songleader's clock says) take
/// the next song and wait for bingo, exactly as forcing bingo at the third
/// vote would; with no song left, a fresh tempo round begins.
pub proof fn law_three_tempos_start_bingo(
    m0: SongleaderModel,
    m1: SongleaderModel,
    m2: SongleaderModel,
    m3: SongleaderModel,
    a: String,
    b: String,
    c: String,
    t1: u64,
    t2: u64,
    t3: u64,
    pick: int,
    url: Seq<char>,
)
    requires
        m0.mode matches ModeView::Tempo { nicks, .. } && nicks.len() == 0,
        a@ != b@,
        a@ != c@,
        b@ != c@,
        0 <= pick < pick_range(m0),
        handled(m0, m1, SongleaderAction::Tempo { nick: a }, t1, pick, url),
        handled(m1, m2, SongleaderAction::Tempo { nick: b }, t2, pick, url),
        handled(m2, m3, SongleaderAction::Tempo { nick: c }, t3, pick, url),
    ensures
        m1.mode is Tempo,
        m2.mode is Tempo,
        m3 == bingo_model(m0, pick, t3),
{
    let init_t = m0.mode->init_t;
    assert(m0.mode->Tempo_nicks =~= Seq::<Seq<char>>::empty());
    assert(with_nick(m0.mode->Tempo_nicks, a@) =~= seq![a@]);
    assert(m1 == in_mode(m0, ModeView::Tempo { nicks: seq![a@], init_t }));
    assert(!seq![a@].contains(b@)) by {
        if seq![a@].contains(b@) {
            let i = choose|i: int| 0 <= i < 1 && seq![a@][i] == b@;
            assert(seq![a@][i] == a@);
        }
    }
    assert(with_nick(seq![a@], b@) =~= seq![a@, b@]);
    assert(m2 == in_mode(m0, ModeView::Tempo { nicks: seq![a@, b@], init_t }));
    assert(!seq![a@, b@].contains(c@)) by {
        if seq![a@, b@].contains(c@) {
            let i = choose|i: int| 0 <= i < 2 && seq![a@, b@][i] == c@;
            assert(seq![a@, b@][i] == a@ || seq![a@, b@][i] == b@);
        }
    }
    assert(with_nick(seq![a@, b@], c@) =~= seq![a@, b@, c@]);
    assert(m3 == bingo_model(m2, pick, t3));
    assert(popped(m2, pick) == popped(m0, pick));
}

/// A bingo round: while a song is awaited, three different nicks typing
/// bingo start the singing, and nothing else changes.
pub proof fn law_three_bingos_start_singing(
    m0: SongleaderModel,
    m1: SongleaderModel,
    m2: SongleaderModel,
    m3: SongleaderModel,
    a: String,
    b: String,
    c: String,
    now: u64,
    pick: int,
    url: Seq<char>,
)
    requires
        m0.mode matches ModeView::Bingo { nicks, .. } && nicks.len() == 0,
        a@ != b@,
        a@ != c@,
        b@ != c@,
        handled(m0, m1, SongleaderAction::Bingo { nick: a }, now, pick, url),
        handled(m1, m2, SongleaderAction::Bingo { nick: b }, now, pick, url),
        handled(m2, m3, SongleaderAction::Bingo { nick: c }, now, pick, url),
    ensures
        m1.mode is Bingo,
        m2.mode is Bingo,
        m3 == in_mode(m0, ModeView::Singing),
{
    let song = m0.mode->song;
    assert(m0.mode->Bingo_nicks =~= Seq::<Seq<char>>::empty());
    assert(with_nick(m0.mode->Bingo_nicks, a@) =~= seq![a@]);
    assert(m1 == in_mode(m0, ModeView::Bingo { nicks: seq![a@], song }));
    assert(!seq![a@].contains(b@)) by {
        if seq![a@].contains(b@) {
            let i = choose|i: int| 0 <= i < 1 && seq![a@][i] == b@;
            assert(seq![a@][i] == a@);
        }
    }
    assert(with_nick(seq![a@], b@) =~= seq![a@, b@]);
    assert(m2 == in_mode(m0, ModeView::Bingo { nicks: seq![a@, b@], song }));
    assert(!seq![a@, b@].contains(c@)) by {
        if seq![a@, b@].contains(c@) {
            let i = choose|i: int| 0 <= i < 2 && seq![a@, b@][i] == c@;
            assert(seq![a@, b@][i] == a@ || seq![a@, b@][i] == b@);
        }
    }
    assert(with_nick(seq![a@, b@], c@) =~= seq![a@, b@, c@]);
}

/// Entering bingo mode starts a round with no nicks counted.
pub proof fn lemma_bingo_model_nicks_distinct(m: SongleaderModel, pick: int, now: u64)
    ensures
        nicks_distinct(bingo_model(m, pick, now).mode),
{
    assert(Seq::<Seq<char>>::empty().no_duplicates());
}

/// Whatever the songleader handles, the nicks counted in the current round
/// stay listed once each: a nick voting again is not added again, and each
/// new round starts with none.
pub proof fn law_nicks_stay_distinct(
    old: SongleaderModel,
    new: SongleaderModel,
    action: SongleaderAction,
    now: u64,
    pick: int,
    url: Seq<char>,
)
    requires
        nicks_distinct(old.mode),
        handled(old, new, action, now, pick, url),
    ensures
        nicks_distinct(new.mode),
{
    assert(Seq::<Seq<char>>::empty().no_duplicates());
    assert(nicks_distinct(fresh_tempo(now)));
    lemma_bingo_model_nicks_distinct(old, pick, now);
    match action {
        SongleaderAction::Tempo { nick } => {
            if let ModeView::Tempo { nicks, .. } = old.mode {
                law_each_nick_counts_once(nicks, nick@);
            }
        },
        SongleaderAction::Bingo { nick } => {
            if let ModeView::Bingo { nicks, .. } = old.mode {
                law_each_nick_counts_once(nicks, nick@);
            }
        },
        SongleaderAction::Begin => {
            if old.mode is Inactive {
                assert(begun(new, url));
            }
        },
        _ => {},
    }
}

/// Help is given while the party waits for tempo votes and before it has
/// begun: exactly one message from the bot, holding the help text with the
/// songbook's link, and the state stays as it was. While a song is being
/// found or sung, or the party is starting, nothing is said.
pub proof fn law_help_while_waiting(
    old: SongleaderModel,
    new: SongleaderModel,
    effs: Seq<Effect>,
    now: u64,
    pick: int,
    url: Seq<char>,
)
    requires
        handled(old, new, SongleaderAction::Help, now, pick, url),
        handled_effects(effs, old, SongleaderAction::Help, pick, url),
    ensures
        new == old,
        old.mode is Tempo || old.mode is Inactive ==> effs.len() == 1 && (effs[0] matches Effect::Send(
            Event::Message(MessageAction::Send { text, rich, source }),
        ) && text@ == help_text(url) && (rich matches Some(RichContent::Help { songbook_url })
            && songbook_url@ == url) && source == Platform::Bot),
        !(old.mode is Tempo || old.mode is Inactive) ==> effs.len() == 0,
{
}

proof fn lemma_first_with_id_found(s: Seq<SongbookSong>, id: Seq<char>, n: int)
    requires
        0 <= n <= s.len(),
    ensures
        first_with_id(s, id, n) is Some <==> exists|i: int| 0 <= i < n && (#[trigger] s[i]).id@ == id,
        first_with_id(s, id, n) matches Some(i) ==> 0 <= i < n && s[i].id@ == id,
    decreases n,
{
    if n > 0 {
        lemma_first_with_id_found(s, id, n - 1);
    }
}

} // verus!
