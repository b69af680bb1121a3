//! Text handling for settings: white space, trimming and splitting.

use vstd::prelude::*;

verus! {

/// Whether `c` is white space: one of the code points that Unicode lists as
/// `White_Space`.
pub open spec fn white_space(c: char) -> bool {
    let code = c as u32;
    ||| 0x09 <= code <= 0x0D
    ||| code == 0x20
    ||| code == 0x85
    ||| code == 0xA0
    ||| code == 0x1680
    ||| 0x2000 <= code <= 0x200A
    ||| code == 0x2028
    ||| code == 0x2029
    ||| code == 0x202F
    ||| code == 0x205F
    ||| code == 0x3000
}

/// Whether `c` is white space.
#[verifier::when_used_as_spec(white_space)]
pub fn is_white_space(c: char) -> (white: bool)
    ensures
        white == white_space(c),
{
    let code = c as u32;
    (0x09 <= code && code <= 0x0D) || code == 0x20 || code == 0x85 || code == 0xA0 || code
        == 0x1680 || (0x2000 <= code && code <= 0x200A) || code == 0x2028 || code == 0x2029
        || code == 0x202F || code == 0x205F || code == 0x3000
}

/// The characters of `text`.
pub fn chars_of(text: &str) -> (chars: Vec<char>)
    ensures
        chars@ == text@,
{
    let mut chars: Vec<char> = Vec::new();
    for c in it: text.chars()
        invariant
            chars@ == it.seq().take(it.index()),
            it.seq() == text@,
    {
        chars.push(c);
    }
    chars
}

/// `s` without the white space at its start.
pub open spec fn trim_start(s: Seq<char>) -> Seq<char>
    decreases s.len(),
{
    if s.len() > 0 && white_space(s[0]) {
        trim_start(s.drop_first())
    } else {
        s
    }
}

/// `s` without the white space at its end.
pub open spec fn trim_end(s: Seq<char>) -> Seq<char>
    decreases s.len(),
{
    if s.len() > 0 && white_space(s.last()) {
        trim_end(s.drop_last())
    } else {
        s
    }
}

/// `s` without the white space at its start and at its end.
pub open spec fn trimmed(s: Seq<char>) -> Seq<char> {
    trim_end(trim_start(s))
}

/// The pieces of `s` between the occurrences of `sep`, in order. There is one
/// piece more than there are occurrences: reading one more character either
/// opens a new piece, if it is `sep`, or extends the last piece.
pub open spec fn split_on(s: Seq<char>, sep: char) -> Seq<Seq<char>>
    decreases s.len(),
{
    if s.len() == 0 {
        seq![Seq::empty()]
    } else {
        let before = split_on(s.drop_last(), sep);
        if s.last() == sep {
            before.push(Seq::empty())
        } else {
            before.update(before.len() - 1, before.last().push(s.last()))
        }
    }
}

/// The texts of `pieces` as sequences of characters.
pub open spec fn views_of(pieces: Seq<&str>) -> Seq<Seq<char>> {
    Seq::new(pieces.len(), |i: int| pieces[i]@)
}

/// `text` without the white space at its start and at its end.
pub fn trim<'a>(text: &'a str) -> (inner: &'a str)
    ensures
        inner@ == trimmed(text@),
{
    let chars = chars_of(text);
    let mut from: usize = 0;
    assert(chars@.skip(0) == chars@);
    while from < chars.len() && is_white_space(chars[from])
        invariant
            from <= chars.len(),
            trim_start(chars@) == trim_start(chars@.skip(from as int)),
        decreases chars.len() - from,
    {
        assert(chars@.skip(from as int).drop_first() == chars@.skip(from + 1));
        from += 1;
    }
    assert(trim_start(chars@) == chars@.skip(from as int));
    let mut to: usize = chars.len();
    while to > from && is_white_space(chars[to - 1])
        invariant
            from <= to <= chars.len(),
            trimmed(chars@) == trim_end(chars@.subrange(from as int, to as int)),
        decreases to,
    {
        assert(chars@.subrange(from as int, to as int).drop_last() == chars@.subrange(
            from as int,
            to - 1,
        ));
        to -= 1;
    }
    text.substring_char(from, to)
}

/// The pieces of `text` between the occurrences of `sep`, in order.
pub fn split<'a>(text: &'a str, sep: char) -> (pieces: Vec<&'a str>)
    ensures
        views_of(pieces@) == split_on(text@, sep),
{
    let chars = chars_of(text);
    let mut pieces: Vec<&'a str> = Vec::new();
    let mut start: usize = 0;
    let mut i: usize = 0;
    assert(text@.subrange(0, 0) =~= Seq::<char>::empty());
    assert(views_of(pieces@).push(text@.subrange(0, 0)) =~= split_on(text@.take(0), sep));
    while i < chars.len()
        invariant
            start <= i <= chars.len(),
            chars@ == text@,
            views_of(pieces@).push(text@.subrange(start as int, i as int)) == split_on(
                text@.take(i as int),
                sep,
            ),
        decreases chars.len() - i,
    {
        let ghost read = text@.take(i + 1);
        let ghost before = split_on(text@.take(i as int), sep);
        let ghost done = views_of(pieces@);
        let ghost open = text@.subrange(start as int, i as int);
        assert(read.drop_last() == text@.take(i as int));
        assert(read.last() == text@[i as int]);
        assert(before == done.push(open));
        if chars[i] == sep {
            let piece = text.substring_char(start, i);
            pieces.push(piece);
            start = i + 1;
            assert(views_of(pieces@) =~= done.push(open));
            assert(text@.subrange(i + 1, i + 1) =~= Seq::<char>::empty());
        } else {
            assert(open.push(text@[i as int]) =~= text@.subrange(start as int, i + 1));
            assert(before.update(before.len() - 1, before.last().push(read.last())) =~= done.push(
                text@.subrange(start as int, i + 1),
            ));
        }
        i += 1;
    }
    assert(text@.take(i as int) == text@);
    let piece = text.substring_char(start, i);
    pieces.push(piece);
    assert(views_of(pieces@) =~= split_on(text@, sep));
    pieces
}

/// The pieces put together again, with `sep` between each two.
pub open spec fn joined(pieces: Seq<Seq<char>>, sep: char) -> Seq<char>
    decreases pieces.len(),
{
    if pieces.len() == 0 {
        Seq::empty()
    } else if pieces.len() == 1 {
        pieces[0]
    } else {
        joined(pieces.drop_last(), sep).push(sep) + pieces.last()
    }
}

/// Whether no piece holds `sep`.
pub open spec fn free_of(pieces: Seq<Seq<char>>, sep: char) -> bool {
    forall|i: int, j: int|
        0 <= i < pieces.len() && 0 <= j < pieces[i].len() ==> #[trigger] pieces[i][j] != sep
}

/// Splitting gives at least one piece, no piece holds the separator, and the
/// pieces joined by the separator are the text that was split.
pub proof fn lemma_split_on(s: Seq<char>, sep: char)
    ensures
        split_on(s, sep).len() >= 1,
        free_of(split_on(s, sep), sep),
        joined(split_on(s, sep), sep) == s,
    decreases s.len(),
{
    let pieces = split_on(s, sep);
    if s.len() == 0 {
        assert(joined(pieces, sep) =~= s);
    } else {
        let before = split_on(s.drop_last(), sep);
        lemma_split_on(s.drop_last(), sep);
        if s.last() == sep {
            assert(pieces.drop_last() =~= before);
            assert(joined(pieces, sep) =~= s);
        } else {
            let last = before.len() - 1;
            assert forall|i: int, j: int|
                0 <= i < pieces.len() && 0 <= j < pieces[i].len() implies #[trigger] pieces[i][j]
                != sep by {
                if i == last && j < before[last].len() {
                    assert(pieces[i][j] == before[i][j]);
                } else if i != last {
                    assert(pieces[i][j] == before[i][j]);
                }
            }
            if before.len() == 1 {
                assert(joined(pieces, sep) =~= s);
            } else {
                assert(pieces.drop_last() =~= before.drop_last());
                assert(joined(pieces, sep) =~= joined(before, sep).push(s.last()));
                assert(joined(pieces, sep) =~= s);
            }
        }
    }
}

/// A text is split in one way only: pieces that hold no separator and give
/// `s` when joined are the pieces of `s`.
pub proof fn lemma_split_on_unique(s: Seq<char>, sep: char, pieces: Seq<Seq<char>>)
    requires
        pieces.len() >= 1,
        free_of(pieces, sep),
        joined(pieces, sep) == s,
    ensures
        pieces == split_on(s, sep),
    decreases s.len(),
{
    let last = pieces.len() - 1;
    if pieces.len() >= 2 {
        assert(joined(pieces, sep) == joined(pieces.drop_last(), sep).push(sep) + pieces.last());
    }
    if s.len() == 0 {
        assert(pieces.len() == 1);
        assert(pieces[0] =~= Seq::<char>::empty());
        assert(pieces =~= split_on(s, sep));
    } else if s.last() == sep {
        if pieces.last().len() > 0 {
            assert(pieces[last][pieces[last].len() - 1] != sep);
            assert(s.last() == pieces.last().last());
        }
        assert(pieces.last() =~= Seq::<char>::empty());
        let rest = pieces.drop_last();
        assert(joined(rest, sep) =~= s.drop_last());
        assert forall|i: int, j: int|
            0 <= i < rest.len() && 0 <= j < rest[i].len() implies #[trigger] rest[i][j] != sep by {
            assert(rest[i][j] == pieces[i][j]);
        }
        lemma_split_on_unique(s.drop_last(), sep, rest);
        assert(pieces =~= rest.push(Seq::empty()));
    } else {
        if pieces.last().len() == 0 {
            assert(pieces.len() >= 2);
            assert(s.last() == sep);
        }
        let rest = pieces.update(last, pieces.last().drop_last());
        assert(s.last() == pieces.last().last());
        if pieces.len() >= 2 {
            assert(rest.drop_last() =~= pieces.drop_last());
            assert(joined(rest, sep) =~= s.drop_last());
        } else {
            assert(joined(rest, sep) =~= s.drop_last());
        }
        assert forall|i: int, j: int|
            0 <= i < rest.len() && 0 <= j < rest[i].len() implies #[trigger] rest[i][j] != sep by {
            assert(rest[i][j] == pieces[i][j]);
        }
        lemma_split_on_unique(s.drop_last(), sep, rest);
        assert(pieces.last() =~= rest.last().push(s.last()));
        assert(pieces =~= rest.update(last, rest.last().push(s.last())));
    }
}

/// What trimming at the start leaves is the text from some position on:
/// all before that position is white space, and what is left does not start
/// with white space.
pub proof fn lemma_trim_start(s: Seq<char>) -> (from: int)
    ensures
        0 <= from <= s.len(),
        trim_start(s) == s.skip(from),
        forall|i: int| 0 <= i < from ==> white_space(#[trigger] s[i]),
        from < s.len() ==> !white_space(s[from]),
    decreases s.len(),
{
    if s.len() > 0 && white_space(s[0]) {
        let inner = lemma_trim_start(s.drop_first());
        assert(s.drop_first().skip(inner) =~= s.skip(inner + 1));
        assert forall|i: int| 0 <= i < inner + 1 implies white_space(#[trigger] s[i]) by {
            if i > 0 {
                assert(s[i] == s.drop_first()[i - 1]);
            }
        }
        inner + 1
    } else {
        assert(s.skip(0) =~= s);
        0
    }
}

/// What trimming at the end leaves is the text up to some position: all from
/// that position on is white space, and what is left does not end with white
/// space.
pub proof fn lemma_trim_end(s: Seq<char>) -> (to: int)
    ensures
        0 <= to <= s.len(),
        trim_end(s) == s.take(to),
        forall|i: int| to <= i < s.len() ==> white_space(#[trigger] s[i]),
        0 < to ==> !white_space(s[to - 1]),
    decreases s.len(),
{
    if s.len() > 0 && white_space(s.last()) {
        let inner = lemma_trim_end(s.drop_last());
        assert(s.drop_last().take(inner) =~= s.take(inner));
        assert forall|i: int| inner <= i < s.len() implies white_space(#[trigger] s[i]) by {
            if i < s.len() - 1 {
                assert(s[i] == s.drop_last()[i]);
            }
        }
        inner
    } else {
        assert(s.take(s.len() as int) =~= s);
        s.len() as int
    }
}

/// Trimming leaves a stretch of the text that neither starts nor ends with
/// white space, and all that it takes away is white space.
pub proof fn lemma_trimmed(s: Seq<char>) -> (bounds: (int, int))
    ensures
        0 <= bounds.0 <= bounds.1 <= s.len(),
        trimmed(s) == s.subrange(bounds.0, bounds.1),
        forall|i: int| 0 <= i < bounds.0 || bounds.1 <= i < s.len() ==> white_space(#[trigger] s[i]),
        bounds.0 < bounds.1 ==> !white_space(s[bounds.0]) && !white_space(s[bounds.1 - 1]),
{
    let from = lemma_trim_start(s);
    let rest = s.skip(from);
    let to = lemma_trim_end(rest);
    assert(rest.take(to) =~= s.subrange(from, from + to));
    assert forall|i: int| 0 <= i < from || from + to <= i < s.len() implies white_space(
        #[trigger] s[i],
    ) by {
        if i >= from + to {
            assert(s[i] == rest[i - from]);
        }
    }
    if to > 0 {
        assert(rest[to - 1] == s[from + to - 1]);
    }
    (from, from + to)
}

} // verus!
