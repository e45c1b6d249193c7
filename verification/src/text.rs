//! Text as sequences of characters: equality, and splitting on a separator.

use vstd::prelude::*;
use vstd::std_specs::iter::IteratorSpec;

verus! {

/// True when `sep` occurs nowhere in `s`.
pub open spec fn free_of(s: Seq<char>, sep: char) -> bool {
    forall|i: int| 0 <= i < s.len() ==> s[i] != sep
}

/// The pieces of `s` between the occurrences of `sep`, from left to right.
///
/// There is always at least one piece, and a piece is empty where `s` starts
/// or ends with `sep`, or holds two of them in a row.
pub open spec fn pieces(s: Seq<char>, sep: char) -> Seq<Seq<char>>
    decreases s.len(),
{
    if s.len() == 0 {
        seq![Seq::empty()]
    } else {
        let before = pieces(s.drop_last(), sep);
        if s.last() == sep {
            before.push(Seq::empty())
        } else {
            before.drop_last().push(before.last().push(s.last()))
        }
    }
}

/// The pieces of `parts` written one after another with `sep` between
/// neighbours.
pub open spec fn joined(parts: Seq<Seq<char>>, sep: char) -> Seq<char>
    decreases parts.len(),
{
    if parts.len() == 0 {
        Seq::empty()
    } else if parts.len() == 1 {
        parts[0]
    } else {
        joined(parts.drop_last(), sep) + seq![sep] + parts.last()
    }
}

/// Splitting never yields an empty list.
pub proof fn lemma_pieces_nonempty(s: Seq<char>, sep: char)
    ensures
        pieces(s, sep).len() >= 1,
    decreases s.len(),
{
    if s.len() > 0 {
        lemma_pieces_nonempty(s.drop_last(), sep);
    }
}

/// No piece of a split holds the separator.
pub proof fn lemma_pieces_free(s: Seq<char>, sep: char)
    ensures
        forall|k: int|
            0 <= k < pieces(s, sep).len() ==> free_of(#[trigger] pieces(s, sep)[k], sep),
    decreases s.len(),
{
    if s.len() > 0 {
        lemma_pieces_free(s.drop_last(), sep);
        lemma_pieces_nonempty(s.drop_last(), sep);
    }
}

/// Joining the pieces of a split gives the text back.
pub proof fn lemma_joined_pieces(s: Seq<char>, sep: char)
    ensures
        joined(pieces(s, sep), sep) == s,
    decreases s.len(),
{
    if s.len() > 0 {
        let front = s.drop_last();
        let before = pieces(front, sep);
        lemma_joined_pieces(front, sep);
        lemma_pieces_nonempty(front, sep);
        if s.last() == sep {
            // one more piece, and it is empty
            assert(before.push(Seq::empty()).drop_last() == before);
        } else if before.len() > 1 {
            // the last piece grows by one character
            let grown = before.last().push(s.last());
            assert(before.drop_last().push(grown).drop_last() == before.drop_last());
            assert(front.push(s.last()) == s);
        }
    }
}

/// A text that is free of the separator is its own single piece.
pub proof fn lemma_pieces_of_free(s: Seq<char>, sep: char)
    requires
        free_of(s, sep),
    ensures
        pieces(s, sep) == seq![s],
    decreases s.len(),
{
    if s.len() == 0 {
        assert(s == Seq::<char>::empty());
    } else {
        lemma_pieces_of_free(s.drop_last(), sep);
        assert(s.drop_last().push(s.last()) == s);
    }
}

/// Splitting `head`, a separator, and a separator-free `tail` gives the
/// pieces of `head` followed by `tail`.
pub proof fn lemma_pieces_append(head: Seq<char>, tail: Seq<char>, sep: char)
    requires
        free_of(tail, sep),
    ensures
        pieces(head + seq![sep] + tail, sep) == pieces(head, sep).push(tail),
    decreases tail.len(),
{
    let whole = head + seq![sep] + tail;
    if tail.len() == 0 {
        assert(whole.drop_last() == head);
        assert(tail == Seq::<char>::empty());
    } else {
        lemma_pieces_append(head, tail.drop_last(), sep);
        assert(whole.drop_last() == head + seq![sep] + tail.drop_last());
        assert(tail.drop_last().push(tail.last()) == tail);
    }
}

/// Splitting a join of separator-free parts gives the parts back.
pub proof fn lemma_pieces_joined(parts: Seq<Seq<char>>, sep: char)
    requires
        parts.len() >= 1,
        forall|k: int| 0 <= k < parts.len() ==> free_of(#[trigger] parts[k], sep),
    ensures
        pieces(joined(parts, sep), sep) == parts,
    decreases parts.len(),
{
    if parts.len() == 1 {
        lemma_pieces_of_free(parts[0], sep);
    } else {
        lemma_pieces_joined(parts.drop_last(), sep);
        lemma_pieces_append(joined(parts.drop_last(), sep), parts.last(), sep);
    }
}

/// Compares two texts character by character.
pub fn same_text(a: &str, b: &str) -> (same: bool)
    ensures
        same == (a@ == b@),
{
    let mut left = a.chars();
    let mut right = b.chars();
    let ghost mut seen: Seq<char> = Seq::empty();
    loop
        invariant
            left.obeys_prophetic_iter_laws(),
            right.obeys_prophetic_iter_laws(),
            left.decrease() is Some,
            a@ == seen + left.remaining(),
            b@ == seen + right.remaining(),
        decreases left.decrease()->0,
    {
        match (left.next(), right.next()) {
            (None, None) => {
                return true;
            },
            (Some(x), Some(y)) => {
                if x != y {
                    assert(b@[seen.len() as int] == y);
                    return false;
                }
                proof {
                    seen = seen.push(x);
                }
            },
            _ => {
                return false;
            },
        }
    }
}

/// Splits `text` on every occurrence of `sep`.
pub fn split(text: &str, sep: char) -> (parts: Vec<String>)
    ensures
        parts.deep_view() == pieces(text@, sep),
{
    let len = text.unicode_len();
    let mut parts: Vec<String> = Vec::new();
    let mut chars = text.chars();
    let mut start: usize = 0;
    let mut at: usize = 0;
    assert(text@.subrange(0, 0) == Seq::<char>::empty());
    loop
        invariant_except_break
            chars.obeys_prophetic_iter_laws(),
            chars.decrease() is Some,
            chars.remaining() == text@.skip(at as int),
        invariant
            start <= at <= len == text@.len(),
            pieces(text@.take(at as int), sep) == parts.deep_view().push(
                text@.subrange(start as int, at as int),
            ),
        ensures
            at == len,
        decreases chars.decrease()->0,
    {
        match chars.next() {
            None => {
                break ;
            },
            Some(c) => {
                proof {
                    assert(text@.take(at + 1).drop_last() == text@.take(at as int));
                    assert(text@.subrange(start as int, at as int).push(c) == text@.subrange(
                        start as int,
                        at + 1,
                    ));
                }
                if c == sep {
                    parts.push(text.substring_char(start, at).to_owned());
                    start = at + 1;
                    assert(text@.subrange(at + 1, at + 1) == Seq::<char>::empty());
                }
                at = at + 1;
            },
        }
    }
    parts.push(text.substring_char(start, len).to_owned());
    parts
}

} // verus!
