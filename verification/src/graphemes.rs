//! Splitting text into user-perceived characters (grapheme clusters) and
//! putting clusters back together.
//!
//! The cluster boundaries themselves come from the `unicode_segmentation`
//! crate; everything built on top of them is verified.

use vstd::prelude::*;
use unicode_segmentation::UnicodeSegmentation;

verus! {

/// The extended grapheme clusters of a text, in order.
pub uninterp spec fn graphemes_of(s: Seq<char>) -> Seq<Seq<char>>;

/// The character sequences behind a sequence of owned cluster strings.
pub open spec fn views_of(gs: Seq<String>) -> Seq<Seq<char>> {
    gs.map_values(|g: String| g@)
}

/// Relies on `unicode_segmentation::UnicodeSegmentation::graphemes` with
/// extended clusters: the clusters depend on the characters alone, they are
/// nonempty, and they partition the input, so their concatenation is the
/// input itself.
#[verifier::external_body]
pub fn split_graphemes(s: &str) -> (r: Vec<String>)
    ensures
        views_of(r@) == graphemes_of(s@),
        views_of(r@).flatten() == s@,
        forall|i: int| 0 <= i < r@.len() ==> #[trigger] r@[i]@.len() > 0,
{
    s.graphemes(true).map(|g| g.to_string()).collect()
}

/// Counts the grapheme clusters of a text.
pub fn grapheme_count(s: &str) -> (n: usize)
    ensures
        n == graphemes_of(s@).len(),
{
    let gs = split_graphemes(s);
    gs.len()
}

/// Concatenates clusters back into one string, in order.
pub fn join_graphemes(gs: &Vec<String>) -> (r: String)
    ensures
        r@ == views_of(gs@).flatten(),
{
    let mut out = String::new();
    let mut i: usize = 0;
    while i < gs.len()
        invariant
            i <= gs.len(),
            out@ == views_of(gs@).take(i as int).flatten(),
        decreases gs.len() - i,
    {
        out.append(gs[i].as_str());
        proof {
            let vs = views_of(gs@);
            assert(vs.take(i + 1) =~= vs.take(i as int).push(gs@[i as int]@));
            broadcast use Seq::lemma_flatten_push;

            assert(vs.take(i + 1).flatten() == vs.take(i as int).flatten() + gs@[i as int]@);
        }
        i += 1;
    }
    proof {
        assert(views_of(gs@).take(gs@.len() as int) =~= views_of(gs@));
    }
    out
}

} // verus!
