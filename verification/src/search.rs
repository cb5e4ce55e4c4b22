//! The search index: the model of the secondary, denormalized player view
//! kept for text search. Documents are keyed by player id — writing a player
//! whose id is already indexed replaces that document — and a search returns
//! every indexed player whose username or name contains the term.
use crate::resources::{Player, PlayerView};
use vstd::pervasive::VecAdditionalExecFns;
use vstd::prelude::*;

verus! {

/// The name of the index that holds the players.
pub const PLAYER_SEARCH_INDEX: &'static str = "players";

/// Whether `pat` occurs contiguously inside `text`.
pub open spec fn is_substring(pat: Seq<char>, text: Seq<char>) -> bool {
    exists|k: int|
        0 <= k && k + pat.len() <= text.len() && #[trigger] text.subrange(k, k + pat.len() as int)
            == pat
}

/// Whether a search for `term` hits `p`: the term occurs in the player's
/// username or name.
pub open spec fn search_matches(p: PlayerView, term: Seq<char>) -> bool {
    is_substring(term, p.username) || is_substring(term, p.name)
}

/// The index invariant: every document carries an id and no two documents
/// share one.
pub open spec fn index_wf(s: Seq<PlayerView>) -> bool {
    &&& forall|i: int| 0 <= i < s.len() ==> (#[trigger] s[i].id) is Some
    &&& forall|i: int, j: int|
        0 <= i < j < s.len() ==> (#[trigger] s[i].id) != (#[trigger] s[j].id)
}

/// The index contents after writing `p`: the first document with `p`'s id is
/// replaced, or `p` is appended when its id is not yet indexed.
pub open spec fn spec_upsert(s: Seq<PlayerView>, p: PlayerView) -> Seq<PlayerView>
    decreases s.len(),
{
    if s.len() == 0 {
        seq![p]
    } else if s[0].id == p.id {
        seq![p] + s.subrange(1, s.len() as int)
    } else {
        seq![s[0]] + spec_upsert(s.subrange(1, s.len() as int), p)
    }
}

/// An in-memory search index over players, keyed by player id.
pub struct SearchIndex {
    entries: Vec<Player>,
}

impl View for SearchIndex {
    type V = Seq<PlayerView>;

    closed spec fn view(&self) -> Seq<PlayerView> {
        self.entries@.map_values(|p: Player| p@)
    }
}

impl SearchIndex {
    pub open spec fn wf(&self) -> bool {
        index_wf(self@)
    }

    /// An empty index.
    pub fn new() -> (s: Self)
        ensures
            s@ == Seq::<PlayerView>::empty(),
            s.wf(),
    {
        let s = SearchIndex { entries: Vec::new() };
        proof {
            assert(s@ =~= Seq::<PlayerView>::empty());
        }
        s
    }

    /// How many documents are indexed.
    pub fn count(&self) -> (n: usize)
        ensures
            n == self@.len(),
    {
        self.entries.len()
    }

    /// Writes `p` to the index: replaces the document already carrying its
    /// id, or appends. The player must carry an id to be indexed.
    pub fn upsert(&mut self, p: &Player)
        requires
            old(self).wf(),
            p@.id is Some,
        ensures
            final(self).wf(),
            final(self)@ == spec_upsert(old(self)@, p@),
    {
        let n = self.entries.len();
        for i in 0..n
            invariant
                self.entries == old(self).entries,
                old(self).wf(),
                p@.id is Some,
                n == self.entries.len(),
                forall|j: int| 0 <= j < i ==> (#[trigger] self@[j].id) != p@.id,
        {
            let found = match (&self.entries[i].id, &p.id) {
                (Some(a), Some(b)) => *a == *b,
                _ => false,
            };
            if found {
                self.entries.set(i, p.clone());
                proof {
                    lemma_upsert_replaces(old(self)@, p@, i as int);
                    assert(self@ =~= old(self)@.update(i as int, p@));
                }
                return ;
            }
        }
        self.entries.push(p.clone());
        proof {
            lemma_upsert_appends(old(self)@, p@);
            assert(self@ =~= old(self)@.push(p@));
        }
    }

    /// Every indexed player hit by a search for `term`, in index order.
    pub fn search(&self, term: &str) -> (r: Vec<Player>)
        ensures
            r@.map_values(|p: Player| p@) == self@.filter(
                |p: PlayerView| search_matches(p, term@),
            ),
    {
        let mut out: Vec<Player> = Vec::new();
        let n = self.entries.len();
        proof {
            reveal(Seq::<PlayerView>::filter);
            assert(self@.subrange(0, 0).len() == 0);
            assert(out@.map_values(|p: Player| p@) =~= self@.subrange(0, 0).filter(
                |p: PlayerView| search_matches(p, term@),
            ));
        }
        for i in 0..n
            invariant
                n == self.entries.len(),
                out@.map_values(|p: Player| p@) == self@.subrange(0, i as int).filter(
                    |p: PlayerView| search_matches(p, term@),
                ),
        {
            let hit = contains_term(self.entries[i].username.as_str(), term) || contains_term(
                self.entries[i].name.as_str(),
                term,
            );
            proof {
                reveal(Seq::<PlayerView>::filter);
                let g = |p: PlayerView| search_matches(p, term@);
                let pre = self@.subrange(0, i as int);
                let cur = self@.subrange(0, i as int + 1);
                assert(cur.drop_last() =~= pre);
                assert(cur.last() == self@[i as int]);
                assert(cur.filter(g) == if g(self@[i as int]) {
                    pre.filter(g).push(self@[i as int])
                } else {
                    pre.filter(g)
                });
            }
            if hit {
                out.push(self.entries[i].clone());
                proof {
                    assert(out@.map_values(|p: Player| p@) =~= self@.subrange(0, i as int).filter(
                        |p: PlayerView| search_matches(p, term@),
                    ).push(self@[i as int]));
                }
            }
        }
        proof {
            assert(self@.subrange(0, n as int) =~= self@);
        }
        out
    }
}

/// Whether `pat` occurs contiguously inside `text`, checked position by
/// position.
pub fn contains_term(text: &str, pat: &str) -> (r: bool)
    ensures
        r == is_substring(pat@, text@),
{
    let tn = text.unicode_len();
    let pn = pat.unicode_len();
    if pn > tn {
        return false;
    }
    let last_start = tn - pn;
    let mut k: usize = 0;
    loop
        invariant
            pn <= tn,
            tn == text@.len(),
            pn == pat@.len(),
            last_start == tn - pn,
            0 <= k <= last_start,
            forall|j: int|
                0 <= j < k ==> #[trigger] text@.subrange(j, j + pat@.len() as int) != pat@,
        decreases last_start - k,
    {
        if matches_at(text, pat, k) {
            return true;
        }
        if k == last_start {
            proof {
                assert(forall|j: int|
                    0 <= j <= last_start ==> #[trigger] text@.subrange(j, j + pat@.len() as int)
                        != pat@);
            }
            return false;
        }
        k = k + 1;
    }
}

/// Whether `pat` occurs in `text` starting at position `k`.
pub(crate) fn matches_at(text: &str, pat: &str, k: usize) -> (r: bool)
    requires
        k + pat@.len() <= text@.len(),
    ensures
        r == (text@.subrange(k as int, k as int + pat@.len() as int) == pat@),
{
    let tn = text.unicode_len();
    let pn = pat.unicode_len();
    for c in 0..pn
        invariant
            tn == text@.len(),
            pn == pat@.len(),
            k + pn <= tn,
            forall|j: int| 0 <= j < c ==> #[trigger] text@[k + j] == pat@[j],
    {
        if text.get_char(k + c) != pat.get_char(c) {
            proof {
                let ci = c as int;
                assert(text@.subrange(k as int, k as int + pat@.len() as int)[ci] != pat@[ci]);
            }
            return false;
        }
    }
    proof {
        assert forall|j: int|
            0 <= j < pat@.len() implies text@.subrange(
            k as int,
            k as int + pat@.len() as int,
        )[j] == pat@[j] by {
            assert(text@[k + j] == pat@[j]);
        }
        assert(text@.subrange(k as int, k as int + pat@.len() as int) =~= pat@);
    }
    true
}

/// When the first `i` documents carry other ids and the one at `i` carries
/// `p`'s id, writing `p` replaces exactly that document.
proof fn lemma_upsert_replaces(s: Seq<PlayerView>, p: PlayerView, i: int)
    requires
        0 <= i < s.len(),
        forall|j: int| 0 <= j < i ==> (#[trigger] s[j].id) != p.id,
        s[i].id == p.id,
    ensures
        spec_upsert(s, p) == s.update(i, p),
    decreases i,
{
    if i == 0 {
        assert(spec_upsert(s, p) == seq![p] + s.subrange(1, s.len() as int));
        assert(seq![p] + s.subrange(1, s.len() as int) =~= s.update(0, p));
    } else {
        let rest = s.subrange(1, s.len() as int);
        assert(rest[i - 1] == s[i]);
        lemma_upsert_replaces(rest, p, i - 1);
        assert(seq![s[0]] + rest.update(i - 1, p) =~= s.update(i, p));
    }
}

/// When no document carries `p`'s id, writing `p` appends it.
proof fn lemma_upsert_appends(s: Seq<PlayerView>, p: PlayerView)
    requires
        forall|j: int| 0 <= j < s.len() ==> (#[trigger] s[j].id) != p.id,
    ensures
        spec_upsert(s, p) == s.push(p),
    decreases s.len(),
{
    if s.len() == 0 {
        assert(seq![p] =~= s.push(p));
    } else {
        let rest = s.subrange(1, s.len() as int);
        lemma_upsert_appends(rest, p);
        assert(seq![s[0]] + rest.push(p) =~= s.push(p));
    }
}

} // verus!
