//! Truncation of text at grapheme-cluster boundaries: keep the first `max`
//! clusters, never cut inside one.

use vstd::prelude::*;
use vstd::seq_lib::lemma_flatten_concat;
use crate::graphemes::{graphemes_of, views_of, split_graphemes, join_graphemes};

verus! {

/// The first `min(max, length)` clusters of a cluster sequence.
pub open spec fn truncate_spec(gs: Seq<Seq<char>>, max: nat) -> Seq<Seq<char>> {
    if gs.len() <= max {
        gs
    } else {
        gs.take(max as int)
    }
}

/// Keeps the first `max` clusters (all of them if there are no more than
/// `max`), copying each kept cluster verbatim.
pub fn truncate_graphemes(gs: &Vec<String>, max: usize) -> (r: Vec<String>)
    ensures
        views_of(r@) == truncate_spec(views_of(gs@), max as nat),
{
    let n: usize = if gs.len() <= max {
        gs.len()
    } else {
        max
    };
    let mut out: Vec<String> = Vec::new();
    let mut i: usize = 0;
    while i < n
        invariant
            i <= n <= gs.len(),
            out@.len() == i,
            views_of(out@) =~= views_of(gs@).take(i as int),
        decreases n - i,
    {
        out.push(gs[i].clone());
        proof {
            assert(views_of(out@) =~= views_of(gs@).take(i + 1));
        }
        i += 1;
    }
    proof {
        assert(views_of(out@) =~= truncate_spec(views_of(gs@), max as nat));
    }
    out
}

/// Returns the concatenation of the first `min(max, count)` grapheme clusters
/// of `text`; a text of at most `max` clusters comes back unchanged.
pub fn truncate(text: &str, max: usize) -> (r: String)
    ensures
        r@ == truncate_spec(graphemes_of(text@), max as nat).flatten(),
        graphemes_of(text@).len() <= max ==> r@ == text@,
        max == 0 ==> r@.len() == 0,
        text@.len() == 0 ==> r@.len() == 0,
{
    let gs = split_graphemes(text);
    let kept = truncate_graphemes(&gs, max);
    let r = join_graphemes(&kept);
    proof {
        if max == 0 {
            assert(truncate_spec(graphemes_of(text@), 0).len() == 0);
        }
        if text@.len() == 0 && gs@.len() > 0 {
            views_of(gs@).lemma_flatten_length_ge_single_element_length(0);
        }
    }
    r
}

/// Renders one line the way the non-scrolling paths print it: a line of more
/// than `max` clusters is cut to its first `max` clusters and the tail marker
/// is appended; any other line is returned verbatim, with no tail.
pub fn render_ordinary(line: &str, max: usize, tail: &str) -> (r: String)
    ensures
        graphemes_of(line@).len() <= max ==> r@ == line@,
        graphemes_of(line@).len() > max ==> r@ == truncate_spec(
            graphemes_of(line@),
            max as nat,
        ).flatten() + tail@,
{
    let gs = split_graphemes(line);
    if gs.len() > max {
        let kept = truncate_graphemes(&gs, max);
        let cut = join_graphemes(&kept);
        cut.concat(tail)
    } else {
        String::from_str(line)
    }
}

/// Law: truncation keeps exactly the first `min(max, count)` clusters, each
/// one verbatim.
pub proof fn lemma_truncate_count(gs: Seq<Seq<char>>, max: nat)
    ensures
        truncate_spec(gs, max).len() == if gs.len() <= max {
            gs.len()
        } else {
            max
        },
        forall|i: int|
            0 <= i < truncate_spec(gs, max).len() ==> #[trigger] truncate_spec(gs, max)[i]
                == gs[i],
{
}

/// Law: truncation never splits a cluster: the truncated text is the
/// concatenation of whole leading clusters, and so a prefix of the full text.
pub proof fn lemma_truncate_text_prefix(gs: Seq<Seq<char>>, max: nat)
    ensures
        truncate_spec(gs, max).flatten().len() <= gs.flatten().len(),
        truncate_spec(gs, max).flatten() == gs.flatten().take(
            truncate_spec(gs, max).flatten().len() as int,
        ),
{
    let kept = truncate_spec(gs, max);
    if gs.len() <= max {
        assert(kept.flatten() =~= gs.flatten().take(kept.flatten().len() as int));
    } else {
        let rest = gs.skip(max as int);
        assert(kept + rest =~= gs);
        lemma_flatten_concat(kept, rest);
        assert(gs.flatten() == kept.flatten() + rest.flatten());
        assert(kept.flatten() =~= gs.flatten().take(kept.flatten().len() as int));
    }
}

} // verus!
