//! Character-sequence utilities: splitting text on a separator character,
//! taking the suffix after the last separator, and joining cells back
//! together. These are the primitives both the path parser and the tabular
//! parser are built on.
use vstd::prelude::*;

verus! {

/// The segments of `s` split on the separator `sep`. There is always at
/// least one segment: an empty input yields one empty segment, and a
/// separator at either end yields an empty segment on that side.
pub open spec fn split_text(s: Seq<char>, sep: char) -> Seq<Seq<char>>
    decreases s.len(),
{
    if s.len() == 0 {
        seq![Seq::<char>::empty()]
    } else {
        let init = split_text(s.drop_last(), sep);
        if s.last() == sep {
            init.push(Seq::<char>::empty())
        } else {
            init.update(init.len() - 1, init.last().push(s.last()))
        }
    }
}

/// The views of a sequence of owned strings.
pub open spec fn str_views(v: Seq<String>) -> Seq<Seq<char>> {
    v.map_values(|s: String| s@)
}

/// Splitting never yields an empty segment list.
pub proof fn lemma_split_text_len(s: Seq<char>, sep: char)
    ensures
        split_text(s, sep).len() >= 1,
    decreases s.len(),
{
    if s.len() > 0 {
        lemma_split_text_len(s.drop_last(), sep);
    }
}

/// The cells joined into one text with `sep` between them.
pub open spec fn join_with(cells: Seq<Seq<char>>, sep: char) -> Seq<char>
    decreases cells.len(),
{
    if cells.len() == 0 {
        Seq::<char>::empty()
    } else if cells.len() == 1 {
        cells[0]
    } else {
        join_with(cells.drop_last(), sep).push(sep) + cells.last()
    }
}

/// Text that does not contain the separator splits to that one segment.
pub proof fn lemma_split_text_no_sep(s: Seq<char>, sep: char)
    requires
        !s.contains(sep),
    ensures
        split_text(s, sep) == seq![s],
    decreases s.len(),
{
    if s.len() == 0 {
        assert(s =~= Seq::<char>::empty());
    } else {
        assert(s[s.len() - 1] == s.last());
        assert(s.last() != sep);
        assert(!s.drop_last().contains(sep)) by {
            if s.drop_last().contains(sep) {
                let w = choose|j: int| 0 <= j < s.drop_last().len() && s.drop_last()[j] == sep;
                assert(s[w] == sep);
            }
        }
        lemma_split_text_no_sep(s.drop_last(), sep);
        assert(s.drop_last().push(s.last()) =~= s);
        assert(split_text(s, sep) =~~= seq![s]);
    }
}

/// Splitting distributes over a separator placed between two texts.
pub proof fn lemma_split_text_append(a: Seq<char>, b: Seq<char>, sep: char)
    ensures
        split_text(a + seq![sep] + b, sep) == split_text(a, sep) + split_text(b, sep),
    decreases b.len(),
{
    let s = a + seq![sep] + b;
    lemma_split_text_len(a, sep);
    if b.len() == 0 {
        assert(s.drop_last() =~= a);
        assert(s.last() == sep);
        assert(split_text(s, sep) =~~= split_text(a, sep) + split_text(b, sep));
    } else {
        lemma_split_text_append(a, b.drop_last(), sep);
        lemma_split_text_len(b.drop_last(), sep);
        let s0 = a + seq![sep] + b.drop_last();
        assert(s.drop_last() =~= s0);
        assert(s.last() == b.last());
        assert(split_text(s, sep) =~~= split_text(a, sep) + split_text(b, sep));
    }
}

/// Joining cells with a separator that none of them contains, then
/// splitting on it again, recovers exactly the cells.
pub proof fn lemma_split_join(cells: Seq<Seq<char>>, sep: char)
    requires
        cells.len() >= 1,
        forall|i: int| 0 <= i < cells.len() ==> !(#[trigger] cells[i]).contains(sep),
    ensures
        split_text(join_with(cells, sep), sep) == cells,
    decreases cells.len(),
{
    if cells.len() == 1 {
        lemma_split_text_no_sep(cells[0], sep);
        assert(split_text(join_with(cells, sep), sep) =~~= cells);
    } else {
        assert(forall|i: int| 0 <= i < cells.drop_last().len() ==> cells.drop_last()[i]
            == cells[i]);
        lemma_split_join(cells.drop_last(), sep);
        assert(join_with(cells, sep) =~= join_with(cells.drop_last(), sep) + seq![sep]
            + cells.last());
        lemma_split_text_append(join_with(cells.drop_last(), sep), cells.last(), sep);
        lemma_split_text_no_sep(cells.last(), sep);
        assert(split_text(join_with(cells, sep), sep) =~~= cells);
    }
}

/// The suffix of `s` that follows the last occurrence of `sep`, or all of
/// `s` when `sep` does not occur.
pub open spec fn suffix_after_last(s: Seq<char>, sep: char) -> Seq<char>
    decreases s.len(),
{
    if s.len() == 0 {
        s
    } else if s.last() == sep {
        Seq::<char>::empty()
    } else {
        suffix_after_last(s.drop_last(), sep).push(s.last())
    }
}

/// When no `sep` occurs at or after position `i`, and position `i - 1` (if
/// any) holds a `sep`, the suffix after the last `sep` is exactly the tail
/// of `s` starting at `i`.
pub proof fn lemma_suffix_after_last_subrange(s: Seq<char>, sep: char, i: int)
    requires
        0 <= i <= s.len(),
        forall|j: int| i <= j < s.len() ==> s[j] != sep,
        i > 0 ==> s[i - 1] == sep,
    ensures
        suffix_after_last(s, sep) == s.subrange(i, s.len() as int),
    decreases s.len(),
{
    if s.len() == 0 {
        assert(suffix_after_last(s, sep) =~= s.subrange(i, s.len() as int));
    } else if i == s.len() {
        assert(s.last() == sep);
        assert(suffix_after_last(s, sep) =~= s.subrange(i, s.len() as int));
    } else {
        assert(s.last() != sep);
        lemma_suffix_after_last_subrange(s.drop_last(), sep, i);
        assert(s.drop_last().subrange(i, s.len() - 1) =~= s.subrange(i, s.len() - 1));
        assert(suffix_after_last(s, sep) =~= s.subrange(i, s.len() as int));
    }
}

/// Mapping to views commutes with appending one string.
pub proof fn lemma_str_views_push(v: Seq<String>, x: String)
    ensures
        str_views(v.push(x)) == str_views(v).push(x@),
{
    assert(str_views(v.push(x)) =~= str_views(v).push(x@));
}

/// The index one past the last occurrence of `sep` in `s`, or 0 when `sep`
/// does not occur.
fn cut_after_last(s: &str, sep: char) -> (i: usize)
    ensures
        i <= s@.len(),
        forall|j: int| i <= j < s@.len() ==> s@[j] != sep,
        i > 0 ==> s@[i - 1] == sep,
{
    let n = s.unicode_len();
    let mut i: usize = n;
    while i > 0
        invariant
            i <= n,
            n == s@.len(),
            forall|j: int| i <= j < s@.len() ==> s@[j] != sep,
        decreases i,
    {
        if s.get_char(i - 1) == sep {
            return i;
        }
        i = i - 1;
    }
    0
}

/// The suffix of `s` after the last occurrence of `sep` (all of `s` when
/// `sep` does not occur). Also reports whether `sep` occurred at all.
pub fn suffix_after_last_char(s: &str, sep: char) -> (r: (bool, String))
    ensures
        r.0 == s@.contains(sep),
        r.1@ == suffix_after_last(s@, sep),
{
    let n = s.unicode_len();
    let cut = cut_after_last(s, sep);
    proof {
        lemma_suffix_after_last_subrange(s@, sep, cut as int);
        if cut > 0 {
            assert(s@.contains(sep));
        } else {
            assert(!s@.contains(sep)) by {
                if s@.contains(sep) {
                    let w = choose|j: int| 0 <= j < s@.len() && s@[j] == sep;
                    assert(s@[w] != sep);
                }
            }
        }
    }
    let suffix = s.substring_char(cut, n).to_owned();
    (cut > 0, suffix)
}

/// Split `s` into the segments between occurrences of `sep`.
pub fn split_on(s: &str, sep: char) -> (r: Vec<String>)
    ensures
        str_views(r@) == split_text(s@, sep),
{
    let n = s.unicode_len();
    let mut parts: Vec<String> = Vec::new();
    let mut start: usize = 0;
    let mut i: usize = 0;
    proof {
        assert(s@.subrange(0, 0) =~= Seq::<char>::empty());
        assert(str_views(parts@).push(Seq::<char>::empty()) =~= seq![Seq::<char>::empty()]);
    }
    while i < n
        invariant
            n == s@.len(),
            start <= i <= n,
            str_views(parts@).push(s@.subrange(start as int, i as int))
                == split_text(s@.subrange(0, i as int), sep),
        decreases n - i,
    {
        let ghost pre = s@.subrange(0, i as int);
        let ghost post = s@.subrange(0, i + 1);
        proof {
            assert(post.drop_last() =~= pre);
            assert(post.last() == s@[i as int]);
        }
        if s.get_char(i) == sep {
            let piece = s.substring_char(start, i).to_owned();
            proof {
                lemma_str_views_push(parts@, piece);
                assert(s@.subrange(i + 1, i + 1) =~= Seq::<char>::empty());
                assert(str_views(parts@.push(piece)).push(Seq::<char>::empty())
                    =~= split_text(post, sep));
            }
            parts.push(piece);
            start = i + 1;
        } else {
            proof {
                let segs = str_views(parts@).push(s@.subrange(start as int, i as int));
                assert(s@.subrange(start as int, i as int).push(s@[i as int])
                    =~= s@.subrange(start as int, i + 1));
                assert(segs.update(segs.len() - 1, s@.subrange(start as int, i + 1))
                    =~= str_views(parts@).push(s@.subrange(start as int, i + 1)));
            }
        }
        i = i + 1;
    }
    let piece = s.substring_char(start, n).to_owned();
    proof {
        lemma_str_views_push(parts@, piece);
        assert(s@.subrange(0, n as int) =~= s@);
        assert(str_views(parts@.push(piece)) =~= split_text(s@, sep));
    }
    parts.push(piece);
    parts
}

} // verus!
