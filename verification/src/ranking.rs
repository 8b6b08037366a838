//! Deterministic reduction of a raw fetched score batch into a bounded,
//! stably ordered leaderboard view: stable sort by value descending, then
//! truncation to the ten best entries.

use vstd::prelude::*;
use vstd::multiset::Multiset;

verus! {

/// The leaderboard view never holds more than this many entries.
pub const LEADERBOARD_CAP: usize = 10;

/// A score fetched from the server.
///
/// The score value itself travels as a machine float; this type carries it as
/// `score_key`, an order-preserving encoding chosen by the caller: a larger
/// key means a better score, and values the caller cannot order (such as
/// not-a-number) are mapped to one fixed key, so they rank as mutually equal.
pub struct Score {
    /// Order-preserving encoding of the score value.
    pub score_key: u64,
    /// The player name.
    pub player: String,
    /// Optional metadata.
    pub meta: Option<String>,
    /// Timestamp text assigned by the server.
    pub timestamp: String,
}

/// The mathematical content of a `Score`.
pub ghost struct ScoreModel {
    pub score_key: u64,
    pub player: Seq<char>,
    pub meta: Option<Seq<char>>,
    pub timestamp: Seq<char>,
}

impl View for Score {
    type V = ScoreModel;

    open spec fn view(&self) -> ScoreModel {
        ScoreModel {
            score_key: self.score_key,
            player: self.player@,
            meta: match self.meta {
                Some(m) => Some(m@),
                None => None,
            },
            timestamp: self.timestamp@,
        }
    }
}

impl Clone for Score {
    fn clone(&self) -> (r: Self)
        ensures
            r@ == self@,
    {
        Score {
            score_key: self.score_key,
            player: self.player.clone(),
            meta: match &self.meta {
                Some(m) => Some(m.clone()),
                None => None,
            },
            timestamp: self.timestamp.clone(),
        }
    }
}

/// The entries of l whose score key is exactly k, in their original order.
pub open spec fn with_key(l: Seq<Score>, k: u64) -> Seq<Score> {
    l.filter(|e: Score| e.score_key == k)
}

/// The models of a sequence of scores.
pub open spec fn score_models(s: Seq<Score>) -> Seq<ScoreModel> {
    s.map_values(|e: Score| e@)
}

/// Entries in descending order of their score key.
pub open spec fn sorted_desc(l: Seq<Score>) -> bool {
    forall|i: int, j: int| 0 <= i < j < l.len() ==> #[trigger] l[i].score_key >= #[trigger] l[j].score_key
}

/// Inserts x into l (already sorted descending) just before the first entry
/// whose key is not larger than x's. `spec_sort_desc` inserts entries from
/// the front of the batch, so x arrived before everything in l and lands
/// ahead of every equal-keyed entry.
pub open spec fn spec_insert_desc(x: Score, l: Seq<Score>) -> Seq<Score>
    decreases l.len(),
{
    if l.len() == 0 {
        seq![x]
    } else if l[0].score_key > x.score_key {
        seq![l[0]] + spec_insert_desc(x, l.drop_first())
    } else {
        seq![x] + l
    }
}

/// Stable descending insertion sort of the batch: each entry is inserted, in
/// arrival order, ahead of the later-arrived entries with an equal key.
pub open spec fn spec_sort_desc(l: Seq<Score>) -> Seq<Score>
    decreases l.len(),
{
    if l.len() == 0 {
        Seq::empty()
    } else {
        spec_insert_desc(l[0], spec_sort_desc(l.drop_first()))
    }
}

/// The reduced view: the stable descending sort, cut to the cap.
pub open spec fn spec_rank(l: Seq<Score>) -> Seq<Score> {
    let s = spec_sort_desc(l);
    if s.len() <= LEADERBOARD_CAP {
        s
    } else {
        s.take(LEADERBOARD_CAP as int)
    }
}

fn insert_desc(x: Score, l: Vec<Score>) -> (r: Vec<Score>)
    ensures
        r@ == spec_insert_desc(x, l@),
    decreases l@.len(),
{
    if l.len() == 0 {
        let mut r: Vec<Score> = Vec::new();
        r.push(x);
        proof {
            assert(r@ =~= seq![x]);
        }
        r
    } else if l[0].score_key > x.score_key {
        let ghost l0 = l@;
        let mut l = l;
        let h = l.remove(0);
        proof {
            assert(l@ =~= l0.drop_first());
        }
        let mut r = insert_desc(x, l);
        r.insert(0, h);
        proof {
            assert(r@ =~= seq![l0[0]] + spec_insert_desc(x, l0.drop_first()));
        }
        r
    } else {
        let ghost l0 = l@;
        let mut l = l;
        l.insert(0, x);
        proof {
            assert(l@ =~= seq![x] + l0);
        }
        l
    }
}

fn sort_desc(v: Vec<Score>) -> (r: Vec<Score>)
    ensures
        r@ == spec_sort_desc(v@),
    decreases v@.len(),
{
    if v.len() == 0 {
        v
    } else {
        let ghost v0 = v@;
        let mut v = v;
        let x = v.remove(0);
        proof {
            assert(v@ =~= v0.drop_first());
        }
        let rest = sort_desc(v);
        insert_desc(x, rest)
    }
}

/// Reduces a raw fetched batch to the consumer-visible leaderboard view:
/// stable sort by score key descending, then truncate to the cap. Repeated
/// reductions of the same batch give the identical view, and equal-keyed
/// entries keep their arrival order.
pub fn reduce(batch: Vec<Score>) -> (r: Vec<Score>)
    ensures
        r@ == spec_rank(batch@),
{
    let ghost b0 = batch@;
    let mut s = sort_desc(batch);
    if s.len() > LEADERBOARD_CAP {
        s.truncate(LEADERBOARD_CAP);
        proof {
            assert(s@ =~= spec_sort_desc(b0).take(LEADERBOARD_CAP as int));
        }
    }
    s
}

proof fn lemma_insert_desc_len(x: Score, l: Seq<Score>)
    ensures
        spec_insert_desc(x, l).len() == l.len() + 1,
    decreases l.len(),
{
    if l.len() > 0 && l[0].score_key > x.score_key {
        lemma_insert_desc_len(x, l.drop_first());
    }
}

proof fn lemma_insert_desc_sorted(x: Score, l: Seq<Score>)
    requires
        sorted_desc(l),
    ensures
        sorted_desc(spec_insert_desc(x, l)),
    decreases l.len(),
{
    lemma_insert_desc_len(x, l);
    if l.len() == 0 {
    } else if l[0].score_key > x.score_key {
        assert(sorted_desc(l.drop_first()));
        lemma_insert_desc_sorted(x, l.drop_first());
        lemma_insert_desc_len(x, l.drop_first());
        let r = seq![l[0]] + spec_insert_desc(x, l.drop_first());
        // every entry of the inserted tail is bounded by l[0]
        assert forall|i: int, j: int| 0 <= i < j < r.len() implies #[trigger] r[i].score_key
            >= #[trigger] r[j].score_key by {
            lemma_insert_desc_members(x, l.drop_first());
            if i == 0 && j > 0 {
                let t = spec_insert_desc(x, l.drop_first());
                assert(r[j] == t[j - 1]);
                assert(t[j - 1] == x || exists|m: int|
                    0 <= m < l.drop_first().len() && t[j - 1] == l.drop_first()[m]);
                if t[j - 1] == x {
                } else {
                    let m = choose|m: int|
                        0 <= m < l.drop_first().len() && t[j - 1] == l.drop_first()[m];
                    assert(l.drop_first()[m] == l[m + 1]);
                    assert(l[0].score_key >= l[m + 1].score_key);
                }
            }
        }
    } else {
        assert forall|i: int, j: int|
            0 <= i < j < spec_insert_desc(x, l).len() implies #[trigger] spec_insert_desc(
            x,
            l,
        )[i].score_key >= #[trigger] spec_insert_desc(x, l)[j].score_key by {
            if i == 0 {
                assert(spec_insert_desc(x, l)[j] == l[j - 1]);
                if j - 1 > 0 {
                    assert(l[0].score_key >= l[j - 1].score_key);
                }
            }
        }
    }
}

/// Every entry of the inserted sequence is x or an entry of l.
proof fn lemma_insert_desc_members(x: Score, l: Seq<Score>)
    ensures
        forall|i: int|
            0 <= i < spec_insert_desc(x, l).len() ==> #[trigger] spec_insert_desc(x, l)[i] == x
                || exists|m: int| 0 <= m < l.len() && spec_insert_desc(x, l)[i] == l[m],
    decreases l.len(),
{
    lemma_insert_desc_len(x, l);
    if l.len() == 0 {
    } else if l[0].score_key > x.score_key {
        lemma_insert_desc_members(x, l.drop_first());
        assert forall|i: int| 0 <= i < spec_insert_desc(x, l).len() implies #[trigger] spec_insert_desc(
            x,
            l,
        )[i] == x || exists|m: int| 0 <= m < l.len() && spec_insert_desc(x, l)[i] == l[m] by {
            let t = spec_insert_desc(x, l.drop_first());
            if i == 0 {
                assert(spec_insert_desc(x, l)[0] == l[0]);
            } else {
                assert(spec_insert_desc(x, l)[i] == t[i - 1]);
                if t[i - 1] != x {
                    let m = choose|m: int|
                        0 <= m < l.drop_first().len() && t[i - 1] == l.drop_first()[m];
                    assert(l.drop_first()[m] == l[m + 1]);
                }
            }
        }
    }
}

proof fn lemma_score_multiset_empty()
    ensures
        Seq::<Score>::empty().to_multiset() =~= Multiset::<Score>::empty(),
{
    broadcast use vstd::seq_lib::group_to_multiset_ensures;
    broadcast use vstd::multiset::lemma_multiset_empty_len;

    assert(Seq::<Score>::empty().to_multiset().len() == 0);
}

proof fn lemma_score_multiset_singleton(x: Score)
    ensures
        seq![x].to_multiset() =~= Multiset::<Score>::empty().insert(x),
{
    broadcast use vstd::seq_lib::group_to_multiset_ensures;

    lemma_score_multiset_empty();
    assert(seq![x] =~= Seq::<Score>::empty().push(x));
    assert(Seq::<Score>::empty().push(x).to_multiset() =~= Seq::<Score>::empty().to_multiset().insert(x));
}

/// to_multiset of a sequence, decomposed at its first entry.
proof fn lemma_score_multiset_cons(l: Seq<Score>)
    requires
        l.len() > 0,
    ensures
        l.to_multiset() =~= l.drop_first().to_multiset().insert(l[0]),
{
    broadcast use vstd::multiset::group_multiset_axioms;

    assert(seq![l[0]] + l.drop_first() =~= l);
    vstd::seq_lib::lemma_multiset_commutative(seq![l[0]], l.drop_first());
    lemma_score_multiset_singleton(l[0]);
    assert(Multiset::<Score>::empty().insert(l[0]).add(l.drop_first().to_multiset()) =~= l.drop_first().to_multiset().insert(l[0]));
}

proof fn lemma_with_key_empty(k: u64)
    ensures
        with_key(Seq::<Score>::empty(), k) =~= Seq::<Score>::empty(),
{
    reveal_with_fuel(Seq::filter, 2);
}

proof fn lemma_with_key_singleton(x: Score, k: u64)
    ensures
        with_key(seq![x], k) =~= if x.score_key == k {
            seq![x]
        } else {
            Seq::<Score>::empty()
        },
{
    reveal_with_fuel(Seq::filter, 2);
    assert(seq![x].drop_last() =~= Seq::<Score>::empty());
    assert(seq![x].last() == x);
}

proof fn lemma_with_key_add(a: Seq<Score>, b: Seq<Score>, k: u64)
    ensures
        with_key(a + b, k) =~= with_key(a, k) + with_key(b, k),
{
    broadcast use Seq::filter_distributes_over_add;

    assert(with_key(a + b, k) == with_key(a, k) + with_key(b, k));
}

/// with_key of a sequence, decomposed at its first entry.
proof fn lemma_with_key_cons(l: Seq<Score>, k: u64)
    requires
        l.len() > 0,
    ensures
        l[0].score_key == k ==> with_key(l, k) =~= seq![l[0]] + with_key(l.drop_first(), k),
        l[0].score_key != k ==> with_key(l, k) =~= with_key(l.drop_first(), k),
{
    assert(seq![l[0]] + l.drop_first() =~= l);
    lemma_with_key_add(seq![l[0]], l.drop_first(), k);
    lemma_with_key_singleton(l[0], k);
}

proof fn lemma_insert_desc_multiset(x: Score, l: Seq<Score>)
    ensures
        spec_insert_desc(x, l).to_multiset() =~= l.to_multiset().insert(x),
    decreases l.len(),
{
    broadcast use vstd::multiset::group_multiset_axioms;

    if l.len() == 0 {
        lemma_score_multiset_singleton(x);
        lemma_score_multiset_empty();
        assert(l =~= Seq::<Score>::empty());
    } else if l[0].score_key > x.score_key {
        lemma_insert_desc_multiset(x, l.drop_first());
        let t = spec_insert_desc(x, l.drop_first());
        vstd::seq_lib::lemma_multiset_commutative(seq![l[0]], t);
        lemma_score_multiset_singleton(l[0]);
        lemma_score_multiset_cons(l);
        assert(spec_insert_desc(x, l).to_multiset() =~= Multiset::<Score>::empty().insert(
            l[0],
        ).add(l.drop_first().to_multiset().insert(x)));
        assert(Multiset::<Score>::empty().insert(l[0]).add(
            l.drop_first().to_multiset().insert(x),
        ) =~= l.drop_first().to_multiset().insert(l[0]).insert(x));
    } else {
        vstd::seq_lib::lemma_multiset_commutative(seq![x], l);
        lemma_score_multiset_singleton(x);
        assert(spec_insert_desc(x, l).to_multiset() =~= l.to_multiset().insert(x));
    }
}

/// Inserting an entry adds it ahead of the equal-keyed entries and leaves
/// every other key's subsequence unchanged.
proof fn lemma_insert_desc_with_key(x: Score, l: Seq<Score>, k: u64)
    ensures
        x.score_key == k ==> with_key(spec_insert_desc(x, l), k) =~= seq![x] + with_key(l, k),
        x.score_key != k ==> with_key(spec_insert_desc(x, l), k) =~= with_key(l, k),
    decreases l.len(),
{
    if l.len() == 0 {
        lemma_with_key_singleton(x, k);
        assert(l =~= Seq::<Score>::empty());
        lemma_with_key_empty(k);
        assert(spec_insert_desc(x, l) =~= seq![x]);
    } else if l[0].score_key > x.score_key {
        lemma_insert_desc_with_key(x, l.drop_first(), k);
        let t = spec_insert_desc(x, l.drop_first());
        lemma_with_key_add(seq![l[0]], t, k);
        lemma_with_key_singleton(l[0], k);
        lemma_with_key_cons(l, k);
        assert(spec_insert_desc(x, l) == seq![l[0]] + t);
    } else {
        lemma_with_key_add(seq![x], l, k);
        lemma_with_key_singleton(x, k);
        assert(spec_insert_desc(x, l) == seq![x] + l);
    }
}

pub proof fn lemma_sort_desc_stable(l: Seq<Score>)
    ensures
        sorted_desc(spec_sort_desc(l)),
        spec_sort_desc(l).to_multiset() == l.to_multiset(),
        spec_sort_desc(l).len() == l.len(),
        forall|k: u64| #[trigger] with_key(spec_sort_desc(l), k) =~= with_key(l, k),
    decreases l.len(),
{
    if l.len() == 0 {
        broadcast use vstd::seq_lib::group_to_multiset_ensures;

        assert(l =~= Seq::<Score>::empty());
        assert(spec_sort_desc(l) =~= l);
        assert forall|k: u64| #[trigger] with_key(spec_sort_desc(l), k) =~= with_key(l, k) by {
            assert(spec_sort_desc(l) == l);
        }
    } else {
        lemma_sort_desc_stable(l.drop_first());
        let rest = spec_sort_desc(l.drop_first());
        lemma_insert_desc_sorted(l[0], rest);
        lemma_insert_desc_len(l[0], rest);
        lemma_insert_desc_multiset(l[0], rest);
        lemma_score_multiset_cons(l);
        assert(spec_sort_desc(l).to_multiset() =~= l.to_multiset());
        assert forall|k: u64| #[trigger] with_key(spec_sort_desc(l), k) =~= with_key(l, k) by {
            lemma_insert_desc_with_key(l[0], rest, k);
            assert(with_key(rest, k) =~= with_key(l.drop_first(), k));
            lemma_with_key_cons(l, k);
        }
    }
}

/// The reduced view is the first (at most) ten entries of the stable
/// descending sort: it is itself sorted, never longer than the cap, and is
/// exactly the sort when the batch fits within the cap.
pub proof fn lemma_rank_bounded(l: Seq<Score>)
    ensures
        spec_rank(l).len() == if l.len() <= LEADERBOARD_CAP {
            l.len()
        } else {
            LEADERBOARD_CAP as nat
        },
        sorted_desc(spec_rank(l)),
        forall|i: int|
            0 <= i < spec_rank(l).len() ==> #[trigger] spec_rank(l)[i] == spec_sort_desc(l)[i],
{
    lemma_sort_desc_stable(l);
    let s = spec_sort_desc(l);
    if s.len() > LEADERBOARD_CAP {
        assert forall|i: int, j: int|
            0 <= i < j < spec_rank(l).len() implies #[trigger] spec_rank(l)[i].score_key
            >= #[trigger] spec_rank(l)[j].score_key by {
            assert(spec_rank(l)[i] == s[i] && spec_rank(l)[j] == s[j]);
        }
    }
}

/// The cap keeps the highest entries: an entry inside the reduced view
/// never ranks below one the cap dropped.
pub proof fn lemma_rank_keeps_highest(l: Seq<Score>)
    ensures
        forall|i: int, j: int|
            0 <= i < spec_rank(l).len() && spec_rank(l).len() <= j < spec_sort_desc(l).len()
                ==> #[trigger] spec_rank(l)[i].score_key >= #[trigger] spec_sort_desc(
                l,
            )[j].score_key,
{
    lemma_sort_desc_stable(l);
    lemma_rank_bounded(l);
    assert forall|i: int, j: int|
        0 <= i < spec_rank(l).len() && spec_rank(l).len() <= j < spec_sort_desc(l).len()
            implies #[trigger] spec_rank(l)[i].score_key >= #[trigger] spec_sort_desc(
        l,
    )[j].score_key by {
        assert(spec_rank(l)[i] == spec_sort_desc(l)[i]);
        assert(spec_sort_desc(l)[i].score_key >= spec_sort_desc(l)[j].score_key);
    }
}

} // verus!

