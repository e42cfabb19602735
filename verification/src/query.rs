//! How a list of parameters is written as a query string, and how such a
//! string is read back.

use vstd::prelude::*;

verus! {

/// The character does not occur in the text.
pub open spec fn free_of(text: Seq<char>, c: char) -> bool {
    forall|i: int| 0 <= i < text.len() ==> #[trigger] text[i] != c
}

/// One parameter as it is written: its name, `=`, its value.
pub open spec fn pair_text(pair: (Seq<char>, Seq<char>)) -> Seq<char> {
    pair.0 + seq!['='] + pair.1
}

/// A list of parameters as it is written: one after the other, with `&`
/// between two of them.
pub open spec fn query_text(pairs: Seq<(Seq<char>, Seq<char>)>) -> Seq<char>
    decreases pairs.len(),
{
    if pairs.len() == 0 {
        Seq::empty()
    } else if pairs.len() == 1 {
        pair_text(pairs[0])
    } else {
        query_text(pairs.drop_last()) + seq!['&'] + pair_text(pairs.last())
    }
}

/// The pieces of a text between the occurrences of a separator. A text
/// without the separator is one piece.
pub open spec fn split(text: Seq<char>, sep: char) -> Seq<Seq<char>>
    decreases text.len(),
{
    if text.len() == 0 {
        seq![Seq::empty()]
    } else {
        let pieces = split(text.drop_last(), sep);
        if text.last() == sep {
            pieces.push(Seq::empty())
        } else {
            pieces.drop_last().push(pieces.last().push(text.last()))
        }
    }
}

/// The text before the first occurrence of a character: all of it where the
/// character does not occur.
pub open spec fn before_first(text: Seq<char>, c: char) -> Seq<char>
    decreases text.len(),
{
    if text.len() == 0 || text[0] == c {
        Seq::empty()
    } else {
        seq![text[0]] + before_first(text.drop_first(), c)
    }
}

/// The text behind the first occurrence of a character: nothing where the
/// character does not occur.
pub open spec fn after_first(text: Seq<char>, c: char) -> Seq<char>
    decreases text.len(),
{
    if text.len() == 0 {
        Seq::empty()
    } else if text[0] == c {
        text.drop_first()
    } else {
        after_first(text.drop_first(), c)
    }
}

/// One piece of a query read as a parameter: the name is what stands before
/// the first `=`, the value what stands behind it.
pub open spec fn parse_pair(piece: Seq<char>) -> (Seq<char>, Seq<char>) {
    (before_first(piece, '='), after_first(piece, '='))
}

/// A query string read as the list of its parameters.
pub open spec fn parse_query(text: Seq<char>) -> Seq<(Seq<char>, Seq<char>)> {
    split(text, '&').map_values(|piece: Seq<char>| parse_pair(piece))
}

/// Every text splits into at least one piece.
pub proof fn lemma_split_is_not_empty(text: Seq<char>, sep: char)
    ensures
        split(text, sep).len() >= 1,
    decreases text.len(),
{
    if text.len() > 0 {
        lemma_split_is_not_empty(text.drop_last(), sep);
    }
}

/// Text without the separator, put behind another text, lengthens that
/// text's last piece and makes no new one.
pub proof fn lemma_split_append(text: Seq<char>, tail: Seq<char>, sep: char)
    requires
        free_of(tail, sep),
    ensures
        split(text, sep).len() >= 1,
        split(text + tail, sep) == split(text, sep).drop_last().push(
            split(text, sep).last() + tail,
        ),
    decreases tail.len(),
{
    lemma_split_is_not_empty(text, sep);
    let pieces = split(text, sep);
    if tail.len() == 0 {
        assert(text + tail =~= text);
        assert(pieces.last() + tail =~= pieces.last());
        assert(pieces.drop_last().push(pieces.last()) =~= pieces);
    } else {
        let whole = text + tail;
        assert(whole.drop_last() =~= text + tail.drop_last());
        assert(whole.last() == tail[tail.len() - 1]);
        assert(free_of(tail.drop_last(), sep)) by {
            assert forall|i: int| 0 <= i < tail.drop_last().len() implies tail.drop_last()[i]
                != sep by {
                assert(tail.drop_last()[i] == tail[i]);
            }
        }
        lemma_split_append(text, tail.drop_last(), sep);
        let mid = split(text + tail.drop_last(), sep);
        assert(mid.drop_last() =~= pieces.drop_last());
        assert(mid.last().push(tail.last()) =~= pieces.last() + tail);
    }
}

/// A separator and a text without one, put behind another text, add that
/// text as one new piece.
pub proof fn lemma_split_next_piece(text: Seq<char>, piece: Seq<char>, sep: char)
    requires
        free_of(piece, sep),
    ensures
        split(text + seq![sep] + piece, sep) == split(text, sep).push(piece),
{
    let head = text + seq![sep];
    assert(head.drop_last() =~= text);
    assert(head.last() == sep);
    lemma_split_append(head, piece, sep);
    assert(split(head, sep).drop_last() =~= split(text, sep));
    assert(split(head, sep).last() + piece =~= piece);
}

/// A written list of parameters splits at `&` into its parameters as they
/// are written, where none of them holds an `&`.
pub proof fn lemma_split_query_text(pairs: Seq<(Seq<char>, Seq<char>)>)
    requires
        pairs.len() >= 1,
        forall|i: int| 0 <= i < pairs.len() ==> free_of(pair_text(#[trigger] pairs[i]), '&'),
    ensures
        split(query_text(pairs), '&') == pairs.map_values(
            |pair: (Seq<char>, Seq<char>)| pair_text(pair),
        ),
    decreases pairs.len(),
{
    let written = pairs.map_values(|pair: (Seq<char>, Seq<char>)| pair_text(pair));
    if pairs.len() == 1 {
        let piece = pair_text(pairs[0]);
        lemma_split_append(Seq::empty(), piece, '&');
        assert(Seq::<char>::empty() + piece =~= piece);
        assert(split(Seq::empty(), '&') =~= seq![Seq::<char>::empty()]);
        assert(split(query_text(pairs), '&') =~= written);
    } else {
        let init = pairs.drop_last();
        assert forall|i: int| 0 <= i < init.len() implies free_of(
            pair_text(#[trigger] init[i]),
            '&',
        ) by {
            assert(init[i] == pairs[i]);
        }
        lemma_split_query_text(init);
        lemma_split_next_piece(query_text(init), pair_text(pairs.last()), '&');
        assert(split(query_text(pairs), '&') =~= written);
    }
}

/// A text cut at the first occurrence of a character gives back what stood
/// before it and what stood behind it.
pub proof fn lemma_cut_at_first(head: Seq<char>, tail: Seq<char>, c: char)
    requires
        free_of(head, c),
    ensures
        before_first(head + seq![c] + tail, c) == head,
        after_first(head + seq![c] + tail, c) == tail,
    decreases head.len(),
{
    let whole = head + seq![c] + tail;
    if head.len() == 0 {
        assert(whole[0] == c);
        assert(whole.drop_first() =~= tail);
        assert(before_first(whole, c) =~= head);
    } else {
        assert(whole[0] == head[0]);
        assert(whole.drop_first() =~= head.drop_first() + seq![c] + tail);
        assert(free_of(head.drop_first(), c)) by {
            assert forall|i: int| 0 <= i < head.drop_first().len() implies head.drop_first()[i]
                != c by {
                assert(head.drop_first()[i] == head[i + 1]);
            }
        }
        lemma_cut_at_first(head.drop_first(), tail, c);
        assert(seq![head[0]] + head.drop_first() =~= head);
    }
}

/// Reading back what was written gives the parameters that were written,
/// where no name holds `&` or `=` and no value holds `&`.
pub proof fn lemma_parse_query_text(pairs: Seq<(Seq<char>, Seq<char>)>)
    requires
        pairs.len() >= 1,
        forall|i: int|
            0 <= i < pairs.len() ==> {
                &&& free_of((#[trigger] pairs[i]).0, '&')
                &&& free_of(pairs[i].0, '=')
                &&& free_of(pairs[i].1, '&')
            },
    ensures
        parse_query(query_text(pairs)) == pairs,
{
    assert forall|i: int| 0 <= i < pairs.len() implies free_of(
        pair_text(#[trigger] pairs[i]),
        '&',
    ) by {
        let pair = pairs[i];
        assert forall|j: int| 0 <= j < pair_text(pair).len() implies pair_text(pair)[j] != '&' by {
            if j < pair.0.len() {
                assert(pair_text(pair)[j] == pair.0[j]);
            } else if j > pair.0.len() {
                assert(pair_text(pair)[j] == pair.1[j - pair.0.len() - 1]);
            }
        }
    }
    lemma_split_query_text(pairs);
    let read = parse_query(query_text(pairs));
    assert(read.len() == pairs.len());
    assert forall|i: int| 0 <= i < pairs.len() implies read[i] == pairs[i] by {
        lemma_cut_at_first(pairs[i].0, pairs[i].1, '=');
    }
    assert(read =~= pairs);
}

} // verus!
