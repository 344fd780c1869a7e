//! Grapheme clusters: which delimiters are valid and how many delimiters a
//! line holds.
use unicode_segmentation::UnicodeSegmentation;
use vstd::prelude::*;

verus! {

/// The extended grapheme clusters of a text, in order.
pub uninterp spec fn grapheme_clusters(s: Seq<char>) -> Seq<Seq<char>>;

/// The views of a sequence of strings.
pub open spec fn views(v: Seq<String>) -> Seq<Seq<char>> {
    v.map_values(|g: String| g@)
}

/// Relies on UnicodeSegmentation::graphemes with extended clusters: it
/// hands out consecutive, non-empty slices of the text that together make
/// up the whole text, and what it hands out depends on the text alone.
#[verifier::external_body]
fn graphemes(s: &str) -> (r: Vec<String>)
    ensures
        views(r@) == grapheme_clusters(s@),
        views(r@).flatten() == s@,
        forall|i: int| 0 <= i < r@.len() ==> #[trigger] r@[i]@.len() > 0,
{
    s.graphemes(true).map(String::from).collect()
}

/// How many items of `gs` are equal to `target`.
pub open spec fn count_equal(gs: Seq<Seq<char>>, target: Seq<char>) -> nat
    decreases gs.len(),
{
    if gs.len() == 0 {
        0
    } else {
        count_equal(gs.drop_last(), target) + if gs.last() == target {
            1nat
        } else {
            0nat
        }
    }
}

/// The number of delimiters in `line`: its grapheme clusters that equal the
/// last grapheme cluster of `sep`.
pub open spec fn delimiter_count(line: Seq<char>, sep: Seq<char>) -> nat {
    count_equal(grapheme_clusters(line), grapheme_clusters(sep).last())
}

/// Whether `sep` is a single grapheme cluster, as a delimiter must be.
pub open spec fn is_single_grapheme(sep: Seq<char>) -> bool {
    grapheme_clusters(sep).len() == 1
}

/// How many of the clusters `gs` are equal to `target`.
pub fn count_matching(gs: &Vec<String>, target: &String) -> (r: usize)
    ensures
        r == count_equal(views(gs@), target@),
{
    let mut r: usize = 0;
    let mut i: usize = 0;
    while i < gs.len()
        invariant
            i <= gs.len(),
            r <= i,
            r == count_equal(views(gs@).take(i as int), target@),
        decreases gs.len() - i,
    {
        assert(views(gs@).take(i + 1).drop_last() =~= views(gs@).take(i as int));
        if gs[i] == *target {
            r = r + 1;
        }
        i = i + 1;
    }
    assert(views(gs@).take(i as int) =~= views(gs@));
    r
}

/// A sequence of non-empty pieces is empty exactly when what they make up is.
proof fn lemma_flatten_empty(gs: Seq<Seq<char>>)
    requires
        forall|i: int| 0 <= i < gs.len() ==> #[trigger] gs[i].len() > 0,
    ensures
        (gs.len() == 0) == (gs.flatten().len() == 0),
{
    if gs.len() > 0 {
        assert(gs[0].len() > 0);
    }
}

/// A single character is a single piece, and a longer text is not, when
/// every piece is non-empty.
proof fn lemma_flatten_one(gs: Seq<Seq<char>>)
    requires
        forall|i: int| 0 <= i < gs.len() ==> #[trigger] gs[i].len() > 0,
    ensures
        gs.flatten().len() == 1 ==> gs.len() == 1,
        gs.len() == 1 ==> gs.flatten() == gs[0],
{
    if gs.len() > 0 {
        let rest = gs.drop_first();
        assert forall|i: int| 0 <= i < rest.len() implies #[trigger] rest[i].len() > 0 by {
            assert(rest[i] == gs[i + 1]);
        }
        lemma_flatten_empty(rest);
        if gs.len() == 1 {
            assert(rest.len() == 0);
            assert(gs.flatten() =~= gs[0]);
        }
    }
}

/// At most every item is counted.
proof fn lemma_count_equal_bound(gs: Seq<Seq<char>>, target: Seq<char>)
    ensures
        count_equal(gs, target) <= gs.len(),
    decreases gs.len(),
{
    if gs.len() > 0 {
        lemma_count_equal_bound(gs.drop_last(), target);
    }
}

/// Non-empty pieces are no more than the characters they make up.
proof fn lemma_flatten_len_bound(gs: Seq<Seq<char>>)
    requires
        forall|i: int| 0 <= i < gs.len() ==> #[trigger] gs[i].len() > 0,
    ensures
        gs.len() <= gs.flatten().len(),
    decreases gs.len(),
{
    if gs.len() > 0 {
        let rest = gs.drop_first();
        assert forall|i: int| 0 <= i < rest.len() implies #[trigger] rest[i].len() > 0 by {
            assert(rest[i] == gs[i + 1]);
        }
        lemma_flatten_len_bound(rest);
        assert(gs[0].len() > 0);
    }
}

/// The number of delimiters in `line`: its grapheme clusters that equal the
/// last grapheme cluster of `original_sep`. An empty line holds none,
/// whatever the separator.
pub fn get_number_of_delimiters(line: &str, original_sep: &str) -> (r: usize)
    requires
        line@.len() > 0 ==> original_sep@.len() > 0,
    ensures
        r == delimiter_count(line@, original_sep@),
        r <= line@.len(),
        line@.len() == 0 ==> r == 0,
{
    let clusters = graphemes(line);
    proof {
        lemma_flatten_empty(views(clusters@));
        lemma_flatten_len_bound(views(clusters@));
    }
    if clusters.len() == 0 {
        return 0;
    }
    let seps = graphemes(original_sep);
    proof {
        lemma_flatten_empty(views(seps@));
    }
    let last = &seps[seps.len() - 1];
    let r = count_matching(&clusters, last);
    proof {
        lemma_count_equal_bound(views(clusters@), last@);
    }
    r
}

/// Whether `sep` can stand as a delimiter: it is one grapheme cluster.
pub fn is_valid_delimiter(sep: &str) -> (r: bool)
    ensures
        r == is_single_grapheme(sep@),
        sep@.len() == 1 ==> r,
        sep@.len() == 0 ==> !r,
{
    let gs = graphemes(sep);
    proof {
        lemma_flatten_empty(views(gs@));
        lemma_flatten_one(views(gs@));
    }
    gs.len() == 1
}

} // verus!
