//! Text measurement and grapheme segmentation.
//!
//! Measurement uses a fixed advance per character, taken from the theme,
//! so sizing stays exact integer arithmetic. Grapheme cluster boundaries
//! come from the outside segmenter, exposed as the character length of
//! each cluster in order.

use vstd::prelude::*;

use crate::geom::MAX_DIM;

verus! {

/// The number of characters in a string.
pub fn char_count(s: &str) -> (n: usize)
    ensures
        n == s@.len(),
{
    s.unicode_len()
}

/// The width of a text run measured with a fixed advance `cw` per
/// character, saturating at the coordinate bound.
pub open spec fn spec_text_width(s: Seq<char>, cw: int) -> int {
    if cw <= 0 {
        0
    } else if s.len() * cw > MAX_DIM {
        MAX_DIM as int
    } else {
        s.len() * cw
    }
}

/// Measure a text run: its character count times the per-character
/// advance, saturating at the coordinate bound.
pub fn text_width(s: &str, cw: i64) -> (w: i64)
    ensures
        w == spec_text_width(s@, cw as int),
        0 <= w <= MAX_DIM,
{
    let n = char_count(s);
    if cw <= 0 {
        0
    } else if n as u64 > (MAX_DIM / cw) as u64 {
        proof {
            let nn = s@.len() as int;
            let cc = cw as int;
            let q = (MAX_DIM as int) / cc;
            assert(nn * cc > q * cc) by (nonlinear_arith)
                requires
                    nn > q,
                    cc > 0,
                    q >= 0,
            ;
            assert(q * cc > MAX_DIM as int - cc) by (nonlinear_arith)
                requires
                    cc > 0,
                    q == (MAX_DIM as int) / cc,
            ;
            assert(nn * cc >= q * cc + cc) by (nonlinear_arith)
                requires
                    nn > q,
                    cc > 0,
            ;
        }
        MAX_DIM
    } else {
        proof {
            let nn = s@.len() as int;
            let cc = cw as int;
            let q = (MAX_DIM as int) / cc;
            assert(nn * cc <= q * cc) by (nonlinear_arith)
                requires
                    nn <= q,
                    cc > 0,
                    nn >= 0,
            ;
            assert(q * cc <= MAX_DIM as int) by (nonlinear_arith)
                requires
                    cc > 0,
                    q == (MAX_DIM as int) / cc,
            ;
            assert(nn * cc >= 0) by (nonlinear_arith)
                requires
                    cc > 0,
                    nn >= 0,
            ;
        }
        (n as i64) * cw
    }
}

/// The sum of a sequence of lengths.
pub open spec fn sum_of(s: Seq<usize>) -> int
    decreases s.len(),
{
    if s.len() == 0 {
        0
    } else {
        sum_of(s.drop_last()) + s.last()
    }
}

/// Splitting a sequence splits its sum.
pub proof fn lemma_sum_of_split(s: Seq<usize>, i: int)
    requires
        0 <= i <= s.len(),
    ensures
        sum_of(s) == sum_of(s.take(i)) + sum_of(s.skip(i)),
    decreases s.len() - i,
{
    if i == s.len() {
        assert(s.take(i) =~= s);
        assert(s.skip(i) =~= Seq::<usize>::empty());
    } else {
        lemma_sum_of_split(s, i + 1);
        assert(s.take(i + 1).drop_last() =~= s.take(i));
        assert(s.take(i + 1).last() == s[i]);
        lemma_sum_of_first(s.skip(i));
        assert(s.skip(i).skip(1) =~= s.skip(i + 1));
        assert(s.skip(i)[0] == s[i]);
    }
}

/// The sum taken from the front: first element plus the rest.
pub proof fn lemma_sum_of_first(s: Seq<usize>)
    requires
        s.len() > 0,
    ensures
        sum_of(s) == s[0] + sum_of(s.skip(1)),
    decreases s.len(),
{
    if s.len() == 1 {
        assert(s.drop_last() =~= Seq::<usize>::empty());
        assert(s.skip(1) =~= Seq::<usize>::empty());
    } else {
        lemma_sum_of_first(s.drop_last());
        assert(s.drop_last()[0] == s[0]);
        assert(s.drop_last().skip(1) =~= s.skip(1).drop_last());
        assert(s.skip(1).last() == s.last());
    }
}

/// Every summand is bounded by the sum when all are non-negative.
pub proof fn lemma_sum_of_nonneg(s: Seq<usize>)
    ensures
        sum_of(s) >= 0,
    decreases s.len(),
{
    if s.len() > 0 {
        lemma_sum_of_nonneg(s.drop_last());
    }
}

/// The character length of each grapheme cluster of a string, in order.
/// The clusters partition the string, so the lengths sum to its length.
pub uninterp spec fn grapheme_lens_of(s: Seq<char>) -> Seq<usize>;

/// Relies on unicode-segmentation's `graphemes`: the iterator yields the
/// grapheme clusters of the string in order, substrings that concatenate
/// back to the string, each non-empty; this returns the character length
/// of each cluster.
#[verifier::external_body]
pub(crate) fn grapheme_lens(s: &str) -> (r: Vec<usize>)
    ensures
        r@ == grapheme_lens_of(s@),
        sum_of(r@) == s@.len(),
        forall|i: int| 0 <= i < r@.len() ==> r@[i] >= 1,
        (r@.len() == 0) <==> (s@.len() == 0),
{
    unicode_segmentation::UnicodeSegmentation::graphemes(s, true).map(|g| char_count(g)).collect()
}

} // verus!
