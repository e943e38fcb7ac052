//! Declarative specification of grapheme-cluster boundaries (UAX #29,
//! rules GB1-GB999).
//!
//! [`is_grapheme_boundary`] says whether a character index of a text is a
//! cluster boundary; [`clusters_from`] partitions a text into clusters.  The
//! executable segmenters in [`crate::grapheme`] are proved against these
//! definitions, and the laws at the end of this module (round trip, reverse
//! iteration, idempotent re-segmentation, cluster count bounds) are proved
//! once here for every text.

use vstd::prelude::*;
use crate::tables::grapheme::GraphemeCat;
use crate::tables::grapheme::spec_grapheme_category;

verus! {

/// Decision of the pair classifier for two adjacent categories.
#[derive(Clone, Copy, PartialEq, Eq, Structural)]
pub enum PairResult {
    /// Definitely not a break.
    NotBreak,
    /// Definitely a break.
    Break,
    /// A break iff not in extended mode.
    Extended,
    /// A break unless the two characters are a CR LF pair.
    CheckCrlf,
    /// A break iff preceded by an even number of regional indicators.
    Regional,
    /// A break unless an emoji base precedes the extend run.
    Emoji,
}

/// The pair classifier: UAX #29 rules GB3-GB13 over the two adjacent
/// categories, with GB999 as the default.  The first matching row applies.
pub open spec fn spec_check_pair(before: GraphemeCat, after: GraphemeCat) -> PairResult {
    match (before, after) {
        (GraphemeCat::GC_Control, GraphemeCat::GC_Control) => PairResult::CheckCrlf,  // GB3
        (GraphemeCat::GC_Control, _) => PairResult::Break,  // GB4
        (_, GraphemeCat::GC_Control) => PairResult::Break,  // GB5
        (GraphemeCat::GC_L, GraphemeCat::GC_L) => PairResult::NotBreak,  // GB6
        (GraphemeCat::GC_L, GraphemeCat::GC_V) => PairResult::NotBreak,  // GB6
        (GraphemeCat::GC_L, GraphemeCat::GC_LV) => PairResult::NotBreak,  // GB6
        (GraphemeCat::GC_L, GraphemeCat::GC_LVT) => PairResult::NotBreak,  // GB6
        (GraphemeCat::GC_LV, GraphemeCat::GC_V) => PairResult::NotBreak,  // GB7
        (GraphemeCat::GC_LV, GraphemeCat::GC_T) => PairResult::NotBreak,  // GB7
        (GraphemeCat::GC_V, GraphemeCat::GC_V) => PairResult::NotBreak,  // GB7
        (GraphemeCat::GC_V, GraphemeCat::GC_T) => PairResult::NotBreak,  // GB7
        (GraphemeCat::GC_LVT, GraphemeCat::GC_T) => PairResult::NotBreak,  // GB8
        (GraphemeCat::GC_T, GraphemeCat::GC_T) => PairResult::NotBreak,  // GB8
        (_, GraphemeCat::GC_Extend) => PairResult::NotBreak,  // GB9
        (_, GraphemeCat::GC_ZWJ) => PairResult::NotBreak,  // GB9
        (_, GraphemeCat::GC_SpacingMark) => PairResult::Extended,  // GB9a
        (GraphemeCat::GC_Prepend, _) => PairResult::Extended,  // GB9b
        (GraphemeCat::GC_E_Base, GraphemeCat::GC_E_Modifier) => PairResult::NotBreak,  // GB10
        (GraphemeCat::GC_E_Base_GAZ, GraphemeCat::GC_E_Modifier) => PairResult::NotBreak,  // GB10
        (GraphemeCat::GC_Extend, GraphemeCat::GC_E_Modifier) => PairResult::Emoji,  // GB10
        (GraphemeCat::GC_ZWJ, GraphemeCat::GC_Glue_After_Zwj) => PairResult::NotBreak,  // GB11
        (GraphemeCat::GC_ZWJ, GraphemeCat::GC_E_Base_GAZ) => PairResult::NotBreak,  // GB11
        (GraphemeCat::GC_Regional_Indicator, GraphemeCat::GC_Regional_Indicator)
            => PairResult::Regional,  // GB12, GB13
        (_, _) => PairResult::Break,  // GB999
    }
}

/// Number of consecutive regional-indicator characters at the end of `s`.
pub open spec fn tail_ri_count(s: Seq<char>) -> int
    decreases s.len(),
{
    if s.len() == 0 || spec_grapheme_category(s.last()) != GraphemeCat::GC_Regional_Indicator {
        0int
    } else {
        1 + tail_ri_count(s.drop_last())
    }
}

/// Scanning the end of `s` leftwards over extend characters: true iff the
/// first character that is not an extend is an emoji base (GB10 lookback).
pub open spec fn emoji_lookback(s: Seq<char>) -> bool
    decreases s.len(),
{
    if s.len() == 0 {
        false
    } else if spec_grapheme_category(s.last()) == GraphemeCat::GC_Extend {
        emoji_lookback(s.drop_last())
    } else {
        spec_grapheme_category(s.last()) == GraphemeCat::GC_E_Base
            || spec_grapheme_category(s.last()) == GraphemeCat::GC_E_Base_GAZ
    }
}

/// Every character of `s` is an extend character.
pub open spec fn all_extend(s: Seq<char>) -> bool {
    forall|m: int| 0 <= m < s.len()
        ==> spec_grapheme_category(#[trigger] s[m]) == GraphemeCat::GC_Extend
}

/// The trailing run of regional indicators is never longer than the text.
pub proof fn lemma_tail_ri_le(s: Seq<char>)
    ensures
        0 <= tail_ri_count(s) <= s.len(),
    decreases s.len(),
{
    if s.len() > 0 && spec_grapheme_category(s.last()) == GraphemeCat::GC_Regional_Indicator {
        lemma_tail_ri_le(s.drop_last());
    }
}

/// Counting a trailing run of regional indicators can stop at the first
/// character from the right that is not one: the count splits there.
pub proof fn lemma_tail_ri_split(s: Seq<char>, j: int)
    requires
        0 <= j <= s.len(),
        forall|m: int| j <= m < s.len()
            ==> spec_grapheme_category(#[trigger] s[m]) == GraphemeCat::GC_Regional_Indicator,
    ensures
        tail_ri_count(s) == s.len() - j + tail_ri_count(s.take(j)),
    decreases s.len() - j,
{
    if j == s.len() {
        assert(s.take(j) =~= s);
    } else {
        assert(spec_grapheme_category(s.last()) == GraphemeCat::GC_Regional_Indicator);
        lemma_tail_ri_split(s.drop_last(), j);
        assert(s.drop_last().take(j) =~= s.take(j));
    }
}

/// The emoji lookback only depends on the text up to the first character
/// from the right that is not an extend character.
pub proof fn lemma_emoji_split(s: Seq<char>, j: int)
    requires
        0 <= j <= s.len(),
        forall|m: int| j <= m < s.len()
            ==> spec_grapheme_category(#[trigger] s[m]) == GraphemeCat::GC_Extend,
    ensures
        emoji_lookback(s) == emoji_lookback(s.take(j)),
    decreases s.len() - j,
{
    if j == s.len() {
        assert(s.take(j) =~= s);
    } else {
        assert(spec_grapheme_category(s.last()) == GraphemeCat::GC_Extend);
        lemma_emoji_split(s.drop_last(), j);
        assert(s.drop_last().take(j) =~= s.take(j));
    }
}

/// Whether the character index `i` of the text `s` is a grapheme-cluster
/// boundary, for extended (`ext`) or legacy clusters.  The start and the end
/// of the text are always boundaries (GB1, GB2).
pub open spec fn is_grapheme_boundary(s: Seq<char>, ext: bool, i: int) -> bool {
    if i <= 0 || i >= s.len() {
        true
    } else {
        let before = spec_grapheme_category(s[i - 1]);
        let after = spec_grapheme_category(s[i]);
        match spec_check_pair(before, after) {
            PairResult::NotBreak => false,
            PairResult::Break => true,
            PairResult::Extended => !ext,
            PairResult::CheckCrlf => !(s[i - 1] == '\r' && s[i] == '\n'),
            PairResult::Regional => tail_ri_count(s.take(i)) % 2 == 0,
            PairResult::Emoji => !emoji_lookback(s.take(i)),
        }
    }
}

/// The first boundary strictly after `i`.
pub open spec fn next_boundary_spec(s: Seq<char>, ext: bool, i: int) -> int
    recommends
        0 <= i < s.len(),
    decreases s.len() - i,
{
    if i + 1 >= s.len() {
        s.len() as int
    } else if is_grapheme_boundary(s, ext, i + 1) {
        i + 1
    } else {
        next_boundary_spec(s, ext, i + 1)
    }
}

/// The last boundary strictly before `i`.
pub open spec fn prev_boundary_spec(s: Seq<char>, ext: bool, i: int) -> int
    recommends
        0 < i <= s.len(),
    decreases i,
{
    if i - 1 <= 0 {
        0int
    } else if is_grapheme_boundary(s, ext, i - 1) {
        i - 1
    } else {
        prev_boundary_spec(s, ext, i - 1)
    }
}

/// `next_boundary_spec` gives the least boundary after `i`.
pub proof fn lemma_next_boundary(s: Seq<char>, ext: bool, i: int)
    requires
        0 <= i < s.len(),
    ensures
        i < next_boundary_spec(s, ext, i) <= s.len(),
        is_grapheme_boundary(s, ext, next_boundary_spec(s, ext, i)),
        forall|j: int| i < j < next_boundary_spec(s, ext, i) ==> !is_grapheme_boundary(s, ext, j),
    decreases s.len() - i,
{
    if i + 1 >= s.len() {
    } else if is_grapheme_boundary(s, ext, i + 1) {
    } else {
        lemma_next_boundary(s, ext, i + 1);
    }
}

/// `prev_boundary_spec` gives the greatest boundary before `i`.
pub proof fn lemma_prev_boundary(s: Seq<char>, ext: bool, i: int)
    requires
        0 < i <= s.len(),
    ensures
        0 <= prev_boundary_spec(s, ext, i) < i,
        is_grapheme_boundary(s, ext, prev_boundary_spec(s, ext, i)),
        forall|j: int| prev_boundary_spec(s, ext, i) < j < i ==> !is_grapheme_boundary(s, ext, j),
    decreases i,
{
    if i - 1 <= 0 {
    } else if is_grapheme_boundary(s, ext, i - 1) {
    } else {
        lemma_prev_boundary(s, ext, i - 1);
    }
}

/// Walking forward from the boundary below `i` comes back to `i`: the two
/// directions agree on the set of boundaries.
pub proof fn lemma_prev_next_inverse(s: Seq<char>, ext: bool, i: int)
    requires
        0 < i <= s.len(),
        is_grapheme_boundary(s, ext, i),
    ensures
        next_boundary_spec(s, ext, prev_boundary_spec(s, ext, i)) == i,
{
    let p = prev_boundary_spec(s, ext, i);
    lemma_prev_boundary(s, ext, i);
    lemma_next_boundary(s, ext, p);
    let n = next_boundary_spec(s, ext, p);
    if n < i {
        assert(!is_grapheme_boundary(s, ext, n));
    }
    if i < n {
        assert(!is_grapheme_boundary(s, ext, i));
    }
}

#[via_fn]
proof fn clusters_from_decreases(s: Seq<char>, ext: bool, i: int) {
    if 0 <= i < s.len() {
        lemma_next_boundary(s, ext, i);
    }
}

/// The grapheme clusters of `s[i..]`, in order: each element is the slice of
/// `s` between two consecutive boundaries.
pub open spec fn clusters_from(s: Seq<char>, ext: bool, i: int) -> Seq<Seq<char>>
    recommends
        0 <= i <= s.len(),
    decreases s.len() - i when 0 <= i <= s.len() via clusters_from_decreases
{
    if i >= s.len() {
        Seq::empty()
    } else {
        seq![s.subrange(i, next_boundary_spec(s, ext, i))]
            + clusters_from(s, ext, next_boundary_spec(s, ext, i))
    }
}

/// The grapheme clusters of `s`.
pub open spec fn grapheme_clusters(s: Seq<char>, ext: bool) -> Seq<Seq<char>> {
    clusters_from(s, ext, 0)
}

/// What one forward step of an iterator yields is the first remaining
/// cluster, and the rest of the clusters are those after the next boundary.
pub proof fn lemma_first_cluster(s: Seq<char>, ext: bool, i: int)
    requires
        0 <= i < s.len(),
    ensures
        clusters_from(s, ext, i).first() == s.subrange(i, next_boundary_spec(s, ext, i)),
        clusters_from(s, ext, i).drop_first() == clusters_from(
            s,
            ext,
            next_boundary_spec(s, ext, i),
        ),
{
    lemma_next_boundary(s, ext, i);
    let j = next_boundary_spec(s, ext, i);
    assert(clusters_from(s, ext, i).drop_first() =~= clusters_from(s, ext, j));
}

#[via_fn]
proof fn clusters_back_decreases(s: Seq<char>, ext: bool, i: int) {
    if 0 < i <= s.len() {
        lemma_prev_boundary(s, ext, i);
    }
}

/// The grapheme clusters of `s[..i]`, listed from the right: the order in
/// which backward iteration yields them.
pub open spec fn clusters_back(s: Seq<char>, ext: bool, i: int) -> Seq<Seq<char>>
    recommends
        0 <= i <= s.len(),
    decreases i when 0 <= i <= s.len() via clusters_back_decreases
{
    if i <= 0 {
        Seq::empty()
    } else {
        seq![s.subrange(prev_boundary_spec(s, ext, i), i)]
            + clusters_back(s, ext, prev_boundary_spec(s, ext, i))
    }
}

proof fn lemma_clusters_from_flatten(s: Seq<char>, ext: bool, i: int)
    requires
        0 <= i <= s.len(),
    ensures
        clusters_from(s, ext, i).flatten() == s.skip(i),
    decreases s.len() - i,
{
    if i >= s.len() {
        assert(clusters_from(s, ext, i).flatten() =~= s.skip(i));
    } else {
        let j = next_boundary_spec(s, ext, i);
        lemma_next_boundary(s, ext, i);
        lemma_clusters_from_flatten(s, ext, j);
        let c = s.subrange(i, j);
        let cs = clusters_from(s, ext, i);
        assert(cs =~= seq![c] + clusters_from(s, ext, j));
        assert(cs.drop_first() =~= clusters_from(s, ext, j));
        assert(cs.first() == c);
        assert(cs.flatten() == cs.first().add(cs.drop_first().flatten()));
        assert(cs.flatten() =~= c + clusters_from(s, ext, j).flatten());
        assert(c + s.skip(j) =~= s.skip(i));
    }
}

/// Round trip: the concatenation of the grapheme clusters of a text is the
/// text itself, in either mode.
pub proof fn lemma_graphemes_roundtrip(s: Seq<char>, ext: bool)
    ensures
        grapheme_clusters(s, ext).flatten() == s,
{
    lemma_clusters_from_flatten(s, ext, 0);
    assert(s.skip(0) =~= s);
}

proof fn lemma_clusters_back_agrees(s: Seq<char>, ext: bool, i: int)
    requires
        0 <= i <= s.len(),
        is_grapheme_boundary(s, ext, i),
    ensures
        clusters_back(s, ext, i).reverse() + clusters_from(s, ext, i)
            == clusters_from(s, ext, 0),
    decreases i,
{
    if i <= 0 {
        assert(clusters_back(s, ext, 0).reverse() + clusters_from(s, ext, 0)
            =~= clusters_from(s, ext, 0));
    } else {
        let j = prev_boundary_spec(s, ext, i);
        lemma_prev_boundary(s, ext, i);
        lemma_prev_next_inverse(s, ext, i);
        lemma_clusters_back_agrees(s, ext, j);
        assert(clusters_from(s, ext, j)
            =~= seq![s.subrange(j, i)] + clusters_from(s, ext, i));
        assert(clusters_back(s, ext, i)
            =~= seq![s.subrange(j, i)] + clusters_back(s, ext, j));
        assert(clusters_back(s, ext, i).reverse()
            =~= clusters_back(s, ext, j).reverse() + seq![s.subrange(j, i)]);
        assert(clusters_back(s, ext, j).reverse() + (seq![s.subrange(j, i)]
            + clusters_from(s, ext, i))
            =~= (clusters_back(s, ext, j).reverse() + seq![s.subrange(j, i)])
                + clusters_from(s, ext, i));
    }
}

/// Reversibility: iterating backward yields exactly the reverse of the
/// sequence of clusters that forward iteration yields.
pub proof fn lemma_graphemes_reverse(s: Seq<char>, ext: bool)
    ensures
        clusters_back(s, ext, s.len() as int) == grapheme_clusters(s, ext).reverse(),
{
    lemma_clusters_back_agrees(s, ext, s.len() as int);
    assert(clusters_from(s, ext, s.len() as int) =~= Seq::<Seq<char>>::empty());
    assert(clusters_back(s, ext, s.len() as int).reverse()
        + Seq::<Seq<char>>::empty()
        =~= clusters_back(s, ext, s.len() as int).reverse());
    assert(clusters_back(s, ext, s.len() as int).reverse() =~= grapheme_clusters(s, ext));
    assert(clusters_back(s, ext, s.len() as int)
        =~= clusters_back(s, ext, s.len() as int).reverse().reverse());
}

proof fn lemma_tail_ri_min(s: Seq<char>, i: int, m: int)
    requires
        0 <= i <= m <= s.len(),
    ensures
        tail_ri_count(s.subrange(i, m)) == if tail_ri_count(s.take(m)) <= m - i {
            tail_ri_count(s.take(m))
        } else {
            m - i
        },
    decreases m - i,
{
    lemma_tail_ri_le(s.take(m));
    lemma_tail_ri_le(s.subrange(i, m));
    if m == i {
        assert(s.subrange(i, m) =~= Seq::<char>::empty());
    } else {
        assert(s.subrange(i, m).last() == s[m - 1]);
        assert(s.take(m).last() == s[m - 1]);
        if spec_grapheme_category(s[m - 1]) == GraphemeCat::GC_Regional_Indicator {
            lemma_tail_ri_min(s, i, m - 1);
            assert(s.subrange(i, m).drop_last() =~= s.subrange(i, m - 1));
            assert(s.take(m).drop_last() =~= s.take(m - 1));
        }
    }
}

proof fn lemma_tail_ri_all(x: Seq<char>)
    requires
        tail_ri_count(x) == x.len(),
    ensures
        forall|r: int| 0 <= r < x.len()
            ==> spec_grapheme_category(#[trigger] x[r]) == GraphemeCat::GC_Regional_Indicator,
    decreases x.len(),
{
    lemma_tail_ri_le(x);
    if x.len() > 0 {
        lemma_tail_ri_le(x.drop_last());
        lemma_tail_ri_all(x.drop_last());
        assert forall|r: int| 0 <= r < x.len()
            implies spec_grapheme_category(#[trigger] x[r])
                == GraphemeCat::GC_Regional_Indicator by {
            if r < x.len() - 1 {
                assert(x.drop_last()[r] == x[r]);
            }
        }
    }
}

proof fn lemma_emoji_eq(s: Seq<char>, i: int, m: int)
    requires
        0 <= i <= m <= s.len(),
        !all_extend(s.subrange(i, m)),
    ensures
        emoji_lookback(s.subrange(i, m)) == emoji_lookback(s.take(m)),
    decreases m - i,
{
    assert(m > i);
    assert(s.subrange(i, m).last() == s[m - 1]);
    assert(s.take(m).last() == s[m - 1]);
    if spec_grapheme_category(s[m - 1]) == GraphemeCat::GC_Extend {
        assert(!all_extend(s.subrange(i, m - 1))) by {
            if all_extend(s.subrange(i, m - 1)) {
                assert forall|r: int| 0 <= r < m - i
                    implies spec_grapheme_category(#[trigger] s.subrange(i, m)[r])
                        == GraphemeCat::GC_Extend by {
                    if r < m - 1 - i {
                        assert(s.subrange(i, m - 1)[r] == s.subrange(i, m)[r]);
                    }
                }
            }
        }
        lemma_emoji_eq(s, i, m - 1);
        assert(s.subrange(i, m).drop_last() =~= s.subrange(i, m - 1));
        assert(s.take(m).drop_last() =~= s.take(m - 1));
    }
}

/// An interior position of a cluster is a non-boundary of the cluster taken
/// alone just as it is a non-boundary of the whole text: the lookbacks that
/// cross the cluster's left edge are settled the same way on both sides,
/// because the left edge is itself a boundary.
proof fn lemma_boundary_local(s: Seq<char>, ext: bool, i: int, m: int, j: int)
    requires
        0 <= i < m < j <= s.len(),
        is_grapheme_boundary(s, ext, i),
    ensures
        is_grapheme_boundary(s.subrange(i, j), ext, m - i) == is_grapheme_boundary(s, ext, m),
{
    let c = s.subrange(i, j);
    let k = m - i;
    assert(c[k - 1] == s[m - 1]);
    assert(c[k] == s[m]);
    assert(c.take(k) =~= s.subrange(i, m));
    let pr = spec_check_pair(
        spec_grapheme_category(s[m - 1]),
        spec_grapheme_category(s[m]),
    );
    if pr == PairResult::Regional {
        lemma_tail_ri_min(s, i, m);
        let full = tail_ri_count(s.take(m));
        let t = tail_ri_count(s.subrange(i, m));
        if full > m - i {
            assert(t == m - i);
            lemma_tail_ri_all(s.subrange(i, m));
            assert forall|r: int| i <= r < m
                implies spec_grapheme_category(#[trigger] s.take(m)[r])
                    == GraphemeCat::GC_Regional_Indicator by {
                assert(s.subrange(i, m)[r - i] == s.take(m)[r]);
            }
            lemma_tail_ri_split(s.take(m), i);
            assert(s.take(m).take(i) =~= s.take(i));
            let ti = tail_ri_count(s.take(i));
            assert(full == m - i + ti);
            assert(ti > 0);
            lemma_tail_ri_le(s.take(i));
            assert(i > 0);
            assert(s.take(i).last() == s[i - 1]);
            assert(spec_grapheme_category(s[i - 1]) == GraphemeCat::GC_Regional_Indicator);
            assert(s.subrange(i, m)[0] == s[i]);
            assert(spec_grapheme_category(s[i]) == GraphemeCat::GC_Regional_Indicator);
            assert(spec_check_pair(
                spec_grapheme_category(s[i - 1]),
                spec_grapheme_category(s[i]),
            ) == PairResult::Regional);
            assert(ti % 2 == 0);
        }
    }
    if pr == PairResult::Emoji {
        if all_extend(s.subrange(i, m)) {
            assert forall|r: int| i <= r < m
                implies spec_grapheme_category(#[trigger] s.take(m)[r])
                    == GraphemeCat::GC_Extend by {
                assert(s.subrange(i, m)[r - i] == s.take(m)[r]);
            }
            lemma_emoji_split(s.take(m), i);
            assert(s.take(m).take(i) =~= s.take(i));
            assert forall|r: int| 0 <= r < c.take(k).len()
                implies spec_grapheme_category(#[trigger] c.take(k)[r])
                    == GraphemeCat::GC_Extend by {
                assert(c.take(k)[r] == s.subrange(i, m)[r]);
            }
            lemma_emoji_split(c.take(k), 0);
            assert(c.take(k).take(0) =~= Seq::<char>::empty());
            if i == 0 {
                assert(s.take(0) =~= Seq::<char>::empty());
            } else {
                assert(s.subrange(i, m)[0] == s[i]);
                assert(spec_grapheme_category(s[i]) == GraphemeCat::GC_Extend);
                assert(spec_grapheme_category(s[i - 1]) == GraphemeCat::GC_Control) by {
                    let prev = spec_grapheme_category(s[i - 1]);
                    if prev != GraphemeCat::GC_Control {
                        assert(spec_check_pair(prev, GraphemeCat::GC_Extend)
                            == PairResult::NotBreak);
                        assert(!is_grapheme_boundary(s, ext, i));
                    }
                }
                assert(s.take(i).last() == s[i - 1]);
                assert(!emoji_lookback(s.take(i)));
            }
        } else {
            lemma_emoji_eq(s, i, m);
        }
    }
}

/// Idempotence: a slice of the text that runs from one boundary to the next
/// is, re-segmented on its own, exactly one cluster equal to itself.
pub proof fn lemma_cluster_idempotent(s: Seq<char>, ext: bool, i: int)
    requires
        0 <= i < s.len(),
        is_grapheme_boundary(s, ext, i),
    ensures
        grapheme_clusters(s.subrange(i, next_boundary_spec(s, ext, i)), ext)
            == seq![s.subrange(i, next_boundary_spec(s, ext, i))],
{
    let j = next_boundary_spec(s, ext, i);
    lemma_next_boundary(s, ext, i);
    let c = s.subrange(i, j);
    assert forall|k: int| 0 < k < c.len() implies !is_grapheme_boundary(c, ext, k) by {
        lemma_boundary_local(s, ext, i, i + k, j);
        assert(!is_grapheme_boundary(s, ext, i + k));
    }
    lemma_next_boundary(c, ext, 0);
    let nb = next_boundary_spec(c, ext, 0);
    if nb < c.len() {
        assert(!is_grapheme_boundary(c, ext, nb));
    }
    assert(nb == c.len());
    assert(c.subrange(0, c.len() as int) =~= c);
    assert(clusters_from(c, ext, c.len() as int) =~= Seq::<Seq<char>>::empty());
    assert(grapheme_clusters(c, ext) =~= seq![c]);
}

/// Idempotence for every yielded cluster: re-segmenting the `n`-th cluster
/// of a text produces exactly one cluster, equal to itself.
pub proof fn lemma_resegment_cluster(s: Seq<char>, ext: bool, n: int)
    requires
        0 <= n < grapheme_clusters(s, ext).len(),
    ensures
        grapheme_clusters(grapheme_clusters(s, ext)[n], ext)
            == seq![grapheme_clusters(s, ext)[n]],
{
    lemma_resegment_from(s, ext, 0, n);
}

proof fn lemma_resegment_from(s: Seq<char>, ext: bool, i: int, n: int)
    requires
        0 <= i <= s.len(),
        is_grapheme_boundary(s, ext, i),
        0 <= n < clusters_from(s, ext, i).len(),
    ensures
        grapheme_clusters(clusters_from(s, ext, i)[n], ext)
            == seq![clusters_from(s, ext, i)[n]],
    decreases s.len() - i,
{
    assert(i < s.len());
    let j = next_boundary_spec(s, ext, i);
    lemma_next_boundary(s, ext, i);
    if n == 0 {
        lemma_cluster_idempotent(s, ext, i);
    } else {
        lemma_resegment_from(s, ext, j, n - 1);
        assert(clusters_from(s, ext, i)[n] == clusters_from(s, ext, j)[n - 1]);
    }
}

/// Offset consistency: the byte offset of each cluster start is strictly
/// below the byte offset of the next boundary, so the offsets that
/// `grapheme_indices` reports grow strictly.
pub proof fn lemma_offsets_increase(s: Seq<char>, ext: bool, i: int)
    requires
        0 <= i < s.len(),
    ensures
        crate::textpos::byte_pos(s, i) < crate::textpos::byte_pos(
            s,
            next_boundary_spec(s, ext, i),
        ),
{
    lemma_next_boundary(s, ext, i);
    crate::textpos::lemma_byte_pos_mono(s, i, next_boundary_spec(s, ext, i));
}

/// Cluster count bounds: a non-empty text has at least one cluster, and no
/// more clusters than characters.
pub proof fn lemma_cluster_count(s: Seq<char>, ext: bool)
    ensures
        grapheme_clusters(s, ext).len() <= s.len(),
        s.len() > 0 ==> grapheme_clusters(s, ext).len() >= 1,
{
    lemma_cluster_count_from(s, ext, 0);
}

pub proof fn lemma_cluster_count_from(s: Seq<char>, ext: bool, i: int)
    requires
        0 <= i <= s.len(),
    ensures
        clusters_from(s, ext, i).len() <= s.len() - i,
        i < s.len() ==> clusters_from(s, ext, i).len() >= 1,
    decreases s.len() - i,
{
    if i < s.len() {
        lemma_next_boundary(s, ext, i);
        lemma_cluster_count_from(s, ext, next_boundary_spec(s, ext, i));
    }
}

} // verus!
