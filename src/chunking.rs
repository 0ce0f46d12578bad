//! Splitting text into pieces of at most a given number of grapheme clusters.
use unicode_segmentation::UnicodeSegmentation;
use vstd::prelude::*;
use vstd::seq_lib::lemma_flatten_concat;

verus! {

broadcast use vstd::seq_lib::group_seq_properties;

/// The extended grapheme clusters of a text, in order.
pub uninterp spec fn graphemes_of(text: Seq<char>) -> Seq<Seq<char>>;

/// Relies on `UnicodeSegmentation::graphemes` (extended clusters): it
/// partitions the text into non-empty clusters that concatenate back to it.
#[verifier::external_body]
fn split_graphemes(text: &str) -> (r: Vec<String>)
    ensures
        r.deep_view() == graphemes_of(text@),
        r.deep_view().flatten() == text@,
        forall|i: int| 0 <= i < r.len() ==> #[trigger] r[i]@.len() > 0,
{
    text.graphemes(true).map(|g| g.to_string()).collect()
}

/// Why a text could not be chunked.
#[derive(Debug, Clone, Copy, PartialEq, Eq, Structural)]
pub enum ChunkError {
    /// The maximum chunk size was zero: no chunking can make progress.
    ZeroMaxSize,
}

/// The clusters `g` grouped front to back into runs of `m`; the last run
/// holds what is left.
pub open spec fn grapheme_groups(g: Seq<Seq<char>>, m: nat) -> Seq<Seq<Seq<char>>>
    decreases g.len(),
{
    if m == 0 || g.len() == 0 {
        seq![]
    } else if g.len() <= m {
        seq![g]
    } else {
        seq![g.take(m as int)] + grapheme_groups(g.skip(m as int), m)
    }
}

/// The text of each group of `grapheme_groups(g, m)`.
pub open spec fn chunk_texts(g: Seq<Seq<char>>, m: nat) -> Seq<Seq<char>>
    decreases g.len(),
{
    if m == 0 || g.len() == 0 {
        seq![]
    } else if g.len() <= m {
        seq![g.flatten()]
    } else {
        seq![g.take(m as int).flatten()] + chunk_texts(g.skip(m as int), m)
    }
}

/// Joins consecutive grapheme clusters into chunks of at most `max_chars`
/// clusters each: every chunk but the last holds exactly `max_chars`.
pub fn chunk_graphemes(graphemes: &Vec<String>, max_chars: usize) -> (r: Result<
    Vec<String>,
    ChunkError,
>)
    ensures
        max_chars == 0 ==> r == Err::<Vec<String>, ChunkError>(ChunkError::ZeroMaxSize),
        max_chars > 0 ==> r is Ok && r->Ok_0.deep_view() == chunk_texts(
            graphemes.deep_view(),
            max_chars as nat,
        ),
{
    if max_chars == 0 {
        return Err(ChunkError::ZeroMaxSize);
    }
    let ghost g = graphemes.deep_view();
    let ghost m = max_chars as nat;
    let n = graphemes.len();
    let mut out: Vec<String> = Vec::new();
    let mut pos: usize = 0;
    while pos < n
        invariant
            g == graphemes.deep_view(),
            m == max_chars as nat,
            m > 0,
            n == graphemes.len(),
            pos <= n,
            out.deep_view() + chunk_texts(g.skip(pos as int), m) == chunk_texts(g, m),
        decreases n - pos,
    {
        let end: usize = if n - pos <= max_chars {
            n
        } else {
            pos + max_chars
        };
        let mut chunk = String::new();
        let mut j: usize = pos;
        while j < end
            invariant
                g == graphemes.deep_view(),
                pos <= j <= end <= n,
                n == graphemes.len(),
                chunk@ == g.subrange(pos as int, j as int).flatten(),
            decreases end - j,
        {
            proof {
                assert(g.subrange(pos as int, j + 1) =~= g.subrange(pos as int, j as int).push(
                    g[j as int],
                ));
                g.subrange(pos as int, j as int).lemma_flatten_push(g[j as int]);
            }
            chunk.append(graphemes[j].as_str());
            j = j + 1;
        }
        proof {
            let rest = g.skip(pos as int);
            if end == n {
                assert(rest =~= g.subrange(pos as int, end as int));
                assert(g.skip(end as int) =~= Seq::<Seq<char>>::empty());
            } else {
                assert(rest.take(m as int) =~= g.subrange(pos as int, end as int));
                assert(rest.skip(m as int) =~= g.skip(end as int));
            }
            assert(out.deep_view().push(chunk@) + chunk_texts(g.skip(end as int), m)
                =~= out.deep_view() + chunk_texts(rest, m));
        }
        out.push(chunk);
        pos = end;
    }
    proof {
        assert(g.skip(pos as int) =~= Seq::<Seq<char>>::empty());
        assert(out.deep_view() + Seq::<Seq<char>>::empty() =~= out.deep_view());
    }
    Ok(out)
}

/// Splits `text` into chunks of at most `max_chars` grapheme clusters, so
/// that no user-perceived character is ever cut in half. An empty text gives
/// no chunks; a zero maximum is refused.
pub fn chunk_text_unicode(text: &str, max_chars: usize) -> (r: Result<Vec<String>, ChunkError>)
    ensures
        max_chars == 0 ==> r == Err::<Vec<String>, ChunkError>(ChunkError::ZeroMaxSize),
        max_chars > 0 ==> r is Ok,
        r is Ok ==> r->Ok_0.deep_view() == chunk_texts(graphemes_of(text@), max_chars as nat),
        r is Ok ==> r->Ok_0.deep_view().flatten() == text@,
        r is Ok ==> forall|i: int| 0 <= i < r->Ok_0.len() ==> #[trigger] r->Ok_0[i]@.len() > 0,
{
    if max_chars == 0 {
        return Err(ChunkError::ZeroMaxSize);
    }
    let graphemes = split_graphemes(text);
    let r = chunk_graphemes(&graphemes, max_chars);
    proof {
        let g = graphemes.deep_view();
        chunks_reassemble(g, max_chars as nat);
        assert forall|i: int| 0 <= i < g.len() implies #[trigger] g[i].len() > 0 by {
            assert(graphemes[i]@.len() > 0);
        }
        chunk_group_sizes(g, max_chars as nat);
        let c = r->Ok_0;
        assert forall|i: int| 0 <= i < c.len() implies #[trigger] c[i]@.len() > 0 by {
            assert(c.deep_view()[i] == c[i]@);
        }
    }
    r
}

/// Joining the chunks in order gives back exactly the clusters' text.
pub proof fn chunks_reassemble(g: Seq<Seq<char>>, m: nat)
    requires
        m > 0,
    ensures
        chunk_texts(g, m).flatten() == g.flatten(),
    decreases g.len(),
{
    if g.len() == 0 {
    } else if g.len() <= m {
        seq![g.flatten()].lemma_flatten_one_element();
    } else {
        chunks_reassemble(g.skip(m as int), m);
        seq![g.take(m as int).flatten()].lemma_flatten_one_element();
        lemma_flatten_concat(seq![g.take(m as int).flatten()], chunk_texts(g.skip(m as int), m));
        assert(g =~= g.take(m as int) + g.skip(m as int));
        lemma_flatten_concat(g.take(m as int), g.skip(m as int));
    }
}

/// Each chunk is the text of one group of consecutive clusters; the groups
/// cover the clusters in order, each holds between one and `m` of them, and
/// every group but the last holds exactly `m`. Where no cluster is empty, no
/// chunk is empty.
pub proof fn chunk_group_sizes(g: Seq<Seq<char>>, m: nat)
    requires
        m > 0,
    ensures
        chunk_texts(g, m) == grapheme_groups(g, m).map_values(|grp: Seq<Seq<char>>| grp.flatten()),
        grapheme_groups(g, m).flatten() == g,
        forall|i: int|
            0 <= i < grapheme_groups(g, m).len() ==> 0 < #[trigger] grapheme_groups(g, m)[i].len()
                <= m,
        forall|i: int|
            0 <= i < grapheme_groups(g, m).len() - 1 ==> #[trigger] grapheme_groups(g, m)[i].len()
                == m,
        (forall|k: int| 0 <= k < g.len() ==> #[trigger] g[k].len() > 0) ==> forall|i: int|
            0 <= i < chunk_texts(g, m).len() ==> #[trigger] chunk_texts(g, m)[i].len() > 0,
    decreases g.len(),
{
    let groups = grapheme_groups(g, m);
    if g.len() == 0 {
        assert(chunk_texts(g, m) =~= groups.map_values(|grp: Seq<Seq<char>>| grp.flatten()));
    } else if g.len() <= m {
        assert(chunk_texts(g, m) =~= groups.map_values(|grp: Seq<Seq<char>>| grp.flatten()));
        seq![g].lemma_flatten_one_element();
        if forall|k: int| 0 <= k < g.len() ==> #[trigger] g[k].len() > 0 {
            g.lemma_flatten_length_ge_single_element_length(0);
            g.lemma_flatten_and_flatten_alt_are_equivalent();
        }
    } else {
        let head = g.take(m as int);
        let tail = g.skip(m as int);
        chunk_group_sizes(tail, m);
        assert(chunk_texts(g, m) =~= groups.map_values(|grp: Seq<Seq<char>>| grp.flatten()));
        lemma_flatten_concat(seq![head], grapheme_groups(tail, m));
        seq![head].lemma_flatten_one_element();
        assert(g =~= head + tail);
        if forall|k: int| 0 <= k < g.len() ==> #[trigger] g[k].len() > 0 {
            assert forall|k: int| 0 <= k < tail.len() implies #[trigger] tail[k].len() > 0 by {
                assert(tail[k] == g[k + m]);
            }
            assert(head[0] == g[0]);
            head.lemma_flatten_length_ge_single_element_length(0);
            head.lemma_flatten_and_flatten_alt_are_equivalent();
            assert forall|i: int| 0 <= i < chunk_texts(g, m).len() implies #[trigger] chunk_texts(
                g,
                m,
            )[i].len() > 0 by {
                if i > 0 {
                    assert(chunk_texts(g, m)[i] == chunk_texts(tail, m)[i - 1]);
                }
            }
        }
    }
}

} // verus!
