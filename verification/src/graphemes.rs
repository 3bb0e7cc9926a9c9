//! Grapheme-cluster addressing.
//!
//! Scrolling and column clipping index text by user-perceived characters
//! (grapheme clusters), never by bytes or code points, so a column range can
//! never split a combined character.  The segmentation itself comes from the
//! `unicode_segmentation` crate; everything built on top of it is verified
//! against the segmentation's two defining facts: the clusters concatenate
//! back to the original string, and no cluster is empty.

use vstd::prelude::*;
use vstd::seq_lib::lemma_flatten_concat;

verus! {

/// The extended grapheme clusters of a string of characters, in order.
pub uninterp spec fn graphemes_of(s: Seq<char>) -> Seq<Seq<char>>;

/// Relies on `unicode_segmentation`'s `graphemes(true)`: it yields the
/// extended grapheme clusters of the string in order, per UAX #29 — a
/// segmentation, so the clusters are non-empty substrings whose
/// concatenation is the whole string — and the result depends on the
/// characters alone.
#[verifier::external_body]
pub(crate) fn split_graphemes(s: &str) -> (clusters: Vec<String>)
    ensures
        clusters@.map_values(|g: String| g@) == graphemes_of(s@),
        clusters@.map_values(|g: String| g@).flatten() == s@,
        forall|i: int| 0 <= i < clusters@.len() ==> clusters@[i]@.len() > 0,
{
    unicode_segmentation::UnicodeSegmentation::graphemes(s, true)
        .map(|cluster| cluster.to_owned())
        .collect()
}

/// The clusters selected by the column range `[start, start + len)`, clipped
/// to the available columns.
pub open spec fn selected_clusters(s: Seq<char>, start: int, len: int) -> Seq<Seq<char>> {
    let clusters = graphemes_of(s);
    let lo = if start <= clusters.len() {
        start
    } else {
        clusters.len() as int
    };
    let hi = if start + len <= clusters.len() {
        start + len
    } else {
        clusters.len() as int
    };
    if lo <= hi {
        clusters.subrange(lo, hi)
    } else {
        Seq::empty()
    }
}

/// The text of the column range `[start, start + len)` of `s`: whole
/// clusters only, clipped to the available columns.
pub open spec fn extracted(s: Seq<char>, start: int, len: int) -> Seq<char> {
    selected_clusters(s, start, len).flatten()
}

/// Number of columns `s` occupies: one column per grapheme cluster.
pub fn grapheme_count(s: &str) -> (n: usize)
    ensures
        n == graphemes_of(s@).len(),
{
    let clusters = split_graphemes(s);
    clusters.len()
}

/// Splitting a segmentation at any cluster boundary and flattening the two
/// halves reproduces the segmented text exactly.
pub proof fn lemma_cluster_split(clusters: Seq<Seq<char>>, s: Seq<char>, n: int)
    requires
        0 <= n <= clusters.len(),
        clusters.flatten() == s,
    ensures
        clusters.subrange(0, n).flatten() + clusters.subrange(n, clusters.len() as int).flatten()
            == s,
{
    lemma_flatten_concat(
        clusters.subrange(0, n),
        clusters.subrange(n, clusters.len() as int),
    );
    assert(clusters.subrange(0, n) + clusters.subrange(n, clusters.len() as int) =~= clusters);
}

/// Concatenate `clusters[lo..hi]` into one string.
fn concat_clusters(clusters: &Vec<String>, lo: usize, hi: usize) -> (out: String)
    requires
        lo <= hi <= clusters@.len(),
    ensures
        out@ == clusters@.map_values(|g: String| g@).subrange(lo as int, hi as int).flatten(),
{
    let ghost views = clusters@.map_values(|g: String| g@);
    let mut out = String::new();
    let mut i: usize = lo;
    proof {
        assert(views.subrange(lo as int, lo as int) =~= Seq::<Seq<char>>::empty());
        assert(Seq::<Seq<char>>::empty().flatten() =~= Seq::<char>::empty());
    }
    while i < hi
        invariant
            lo <= i <= hi <= clusters@.len(),
            views == clusters@.map_values(|g: String| g@),
            out@ == views.subrange(lo as int, i as int).flatten(),
        decreases hi - i,
    {
        out.append(clusters[i].as_str());
        proof {
            let prefix = views.subrange(lo as int, i as int);
            assert(views.subrange(lo as int, i + 1 as int) =~= prefix.push(views[i as int]));
            prefix.lemma_flatten_push(views[i as int]);
        }
        i = i + 1;
    }
    out
}

/// The text of the column range `[start, start + len)` of `s`, built from
/// whole grapheme clusters and clipped to the available columns.  A range
/// outside the text yields the empty string; no input is rejected.
pub fn grapheme_substring(s: &str, start: usize, len: usize) -> (out: String)
    ensures
        out@ == extracted(s@, start as int, len as int),
{
    let clusters = split_graphemes(s);
    let n = clusters.len();
    if start >= n {
        proof {
            assert(selected_clusters(s@, start as int, len as int)
                =~= Seq::<Seq<char>>::empty());
            assert(Seq::<Seq<char>>::empty().flatten() =~= Seq::<char>::empty());
        }
        String::new()
    } else {
        let avail = n - start;
        let take = if len < avail {
            len
        } else {
            avail
        };
        let out = concat_clusters(&clusters, start, start + take);
        proof {
            assert(clusters@.map_values(|g: String| g@).subrange(
                start as int,
                start + take as int,
            ) =~= selected_clusters(s@, start as int, len as int));
        }
        out
    }
}

/// A column range extraction never splits a cluster: the text before column
/// `n` and the text from column `n` on always concatenate back to the whole
/// line, for every split column.
pub fn split_at_column(s: &str, n: usize) -> (parts: (String, String))
    ensures
        parts.0@ == extracted(s@, 0, n as int),
        parts.1@ == extracted(s@, n as int, graphemes_of(s@).len() as int),
        parts.0@ + parts.1@ == s@,
{
    let clusters = split_graphemes(s);
    let total = clusters.len();
    let cut = if n < total {
        n
    } else {
        total
    };
    let head = concat_clusters(&clusters, 0, cut);
    let tail = concat_clusters(&clusters, cut, total);
    proof {
        let views = clusters@.map_values(|g: String| g@);
        lemma_cluster_split(views, s@, cut as int);
        assert(views.subrange(0, cut as int) =~= selected_clusters(s@, 0, n as int));
        assert(views.subrange(cut as int, total as int) =~= selected_clusters(
            s@,
            n as int,
            graphemes_of(s@).len() as int,
        ));
    }
    (head, tail)
}

} // verus!
