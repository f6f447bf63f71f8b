//! Text helpers: splitting on a separator character and joining pieces.
use vstd::prelude::*;
use vstd::utf8::{decode_utf8, valid_utf8};

verus! {

/// The pieces of `s` between the occurrences of `sep`, in order. There is always at least
/// one piece; adjacent separators enclose an empty piece.
pub open spec fn split_on(s: Seq<char>, sep: char) -> Seq<Seq<char>>
    decreases s.len(),
{
    if s.len() == 0 {
        seq![Seq::<char>::empty()]
    } else {
        let before = split_on(s.drop_last(), sep);
        if s.last() == sep {
            before.push(Seq::empty())
        } else {
            before.drop_last().push(before.last().push(s.last()))
        }
    }
}

/// `pieces` written one after the other with `sep` between neighbours.
pub open spec fn join_with(pieces: Seq<Seq<char>>, sep: char) -> Seq<char>
    decreases pieces.len(),
{
    if pieces.len() == 0 {
        Seq::empty()
    } else if pieces.len() == 1 {
        pieces[0]
    } else {
        join_with(pieces.drop_last(), sep).push(sep) + pieces.last()
    }
}

/// The views of the string slices of `pieces`.
pub open spec fn str_views(pieces: Seq<&str>) -> Seq<Seq<char>> {
    Seq::new(pieces.len(), |i: int| pieces[i]@)
}

/// Splitting loses nothing: there is at least one piece, no piece holds the separator, and
/// joining the pieces with the separator gives the text back.
pub proof fn law_split_join(s: Seq<char>, sep: char)
    ensures
        split_on(s, sep).len() >= 1,
        forall|i: int| 0 <= i < split_on(s, sep).len() ==> !(#[trigger] split_on(s, sep)[i]).contains(sep),
        join_with(split_on(s, sep), sep) == s,
    decreases s.len(),
{
    if s.len() == 0 {
    } else {
        law_split_join(s.drop_last(), sep);
        let before = split_on(s.drop_last(), sep);
        let pieces = split_on(s, sep);
        if s.last() == sep {
            assert(pieces.drop_last() == before);
            assert(join_with(pieces, sep) == s.drop_last().push(sep));
            assert(s.drop_last().push(sep) == s);
        } else {
            assert(pieces.drop_last() == before.drop_last());
            assert(pieces.last() == before.last().push(s.last()));
            assert(join_with(pieces, sep) == join_with(before, sep).push(s.last()));
            assert(s.drop_last().push(s.last()) == s);
            assert forall|i: int| 0 <= i < pieces.len() implies !(#[trigger] pieces[i]).contains(sep) by {
                if i < before.len() - 1 {
                    assert(pieces[i] == before[i]);
                } else {
                    let old_piece = before[before.len() - 1];
                    assert forall|j: int| 0 <= j < pieces[i].len() implies pieces[i][j] != sep by {
                        if j < old_piece.len() {
                            assert(pieces[i][j] == old_piece[j]);
                            assert(!old_piece.contains(sep));
                        }
                    }
                }
            }
        }
    }
}

/// A text without the separator is its own single piece.
pub proof fn lemma_split_single(s: Seq<char>, sep: char)
    requires
        !s.contains(sep),
    ensures
        split_on(s, sep) == seq![s],
    decreases s.len(),
{
    if s.len() > 0 {
        assert forall|i: int| 0 <= i < s.drop_last().len() implies s.drop_last()[i] != sep by {
            assert(s.contains(s[i]));
        }
        assert(s.contains(s.last()));
        lemma_split_single(s.drop_last(), sep);
        assert(s.drop_last().push(s.last()) == s);
    } else {
        assert(s == Seq::<char>::empty());
    }
}

/// Splitting `a`, a separator and `b` gives the pieces of `a` followed by those of `b`.
pub proof fn lemma_split_concat(a: Seq<char>, b: Seq<char>, sep: char)
    ensures
        split_on(a.push(sep) + b, sep) == split_on(a, sep) + split_on(b, sep),
    decreases b.len(),
{
    let whole = a.push(sep) + b;
    law_split_join(b, sep);
    if b.len() == 0 {
        assert(whole == a.push(sep));
        assert(whole.drop_last() == a);
        assert(split_on(whole, sep) == split_on(a, sep).push(Seq::empty()));
    } else {
        lemma_split_concat(a, b.drop_last(), sep);
        law_split_join(b.drop_last(), sep);
        assert(whole.drop_last() == a.push(sep) + b.drop_last());
        let before_b = split_on(b.drop_last(), sep);
        let before = split_on(whole.drop_last(), sep);
        assert(before == split_on(a, sep) + before_b);
        assert(before.last() == before_b.last());
        assert(before.drop_last() == split_on(a, sep) + before_b.drop_last());
    }
}

/// Joining the first pieces gives the beginning of what joining all of them gives.
pub proof fn lemma_join_take_prefix(pieces: Seq<Seq<char>>, n: int, sep: char)
    requires
        1 <= n <= pieces.len(),
    ensures
        join_with(pieces.take(n), sep).is_prefix_of(join_with(pieces, sep)),
    decreases pieces.len(),
{
    if n == pieces.len() {
        assert(pieces.take(n) == pieces);
    } else {
        lemma_join_take_prefix(pieces.drop_last(), n, sep);
        assert(pieces.drop_last().take(n) == pieces.take(n));
    }
}

/// What `String::from_utf8_lossy` makes of `bytes`.
pub uninterp spec fn lossy_utf8(bytes: Seq<u8>) -> Seq<char>;

/// Calls `String::from_utf8_lossy`. Trusted: the text is a function of the bytes, called
/// `lossy_utf8`, and valid UTF-8 is decoded as it stands. How ill-formed bytes are divided
/// into replacement characters is left to the name.
#[verifier::external_body]
pub(crate) fn text_from_utf8_lossy(bytes: &[u8]) -> (text: String)
    ensures
        text@ == lossy_utf8(bytes@),
        valid_utf8(bytes@) ==> text@ == decode_utf8(bytes@),
{
    String::from_utf8_lossy(bytes).into_owned()
}

/// The view of an optional text.
pub open spec fn text_option_view(text: Option<&str>) -> Option<Seq<char>> {
    match text {
        Some(text) => Some(text@),
        None => None,
    }
}

/// Whether `a` and `b` are the same text.
pub fn same_text(a: &str, b: &str) -> (same: bool)
    ensures
        same == (a@ == b@),
{
    a.to_string() == b.to_string()
}

/// `prefix` followed by `rest`.
pub fn concat_text(prefix: &str, rest: &str) -> (whole: String)
    ensures
        whole@ == prefix@ + rest@,
{
    let mut whole: String = prefix.to_string();
    whole.append(rest);
    whole
}

/// The pieces of `s` between the occurrences of `sep`.
pub fn split_text<'a>(s: &'a str, sep: char) -> (pieces: Vec<&'a str>)
    ensures
        str_views(pieces@) == split_on(s@, sep),
{
    let total: usize = s.unicode_len();
    let mut pieces: Vec<&'a str> = Vec::new();
    let mut start: usize = 0;
    let mut i: usize = 0;
    assert(s@.take(0) == Seq::<char>::empty());
    assert(s@.subrange(0, 0) == Seq::<char>::empty());
    assert(str_views(pieces@).push(s@.subrange(0, 0)) == seq![Seq::<char>::empty()]);
    for c in chars: s.chars()
        invariant
            total == s@.len(),
            chars.seq() == s@,
            i == chars.index(),
            start <= i <= total,
            str_views(pieces@).push(s@.subrange(start as int, i as int)) == split_on(s@.take(i as int), sep),
    {
        let ghost so_far = s@.take(i as int);
        let ghost next = s@.take(i as int + 1);
        let ghost open = s@.subrange(start as int, i as int);
        let ghost closed = str_views(pieces@);
        assert(next.drop_last() == so_far);
        assert(next.last() == c);
        assert(closed.push(open).drop_last() == closed);
        if c == sep {
            pieces.push(s.substring_char(start, i));
            start = i + 1;
            assert(str_views(pieces@) == closed.push(open));
            assert(s@.subrange(start as int, i + 1) == Seq::<char>::empty());
        } else {
            assert(s@.subrange(start as int, i + 1) == open.push(c));
        }
        i = i + 1;
    }
    let ghost closed = str_views(pieces@);
    pieces.push(s.substring_char(start, total));
    assert(s@.take(s@.len() as int) == s@);
    assert(str_views(pieces@) == closed.push(s@.subrange(start as int, total as int)));
    pieces
}

/// The pieces of a text are told apart by the separators alone: a text without the separator is
/// one piece, and a separator divides the pieces before it from those behind it.
pub proof fn law_split_at_separators(a: Seq<char>, b: Seq<char>, sep: char)
    ensures
        !a.contains(sep) ==> split_on(a, sep) == seq![a],
        split_on(a + seq![sep] + b, sep) == split_on(a, sep) + split_on(b, sep),
{
    if !a.contains(sep) {
        lemma_split_single(a, sep);
    }
    lemma_split_concat(a, b, sep);
    assert(a + seq![sep] + b == a.push(sep) + b);
}

/// A view of string slices has the slices' texts, one for one, and an optional text has the
/// text's view.
pub proof fn law_text_views_are_faithful(pieces: Seq<&str>, text: &str)
    ensures
        str_views(pieces).len() == pieces.len(),
        forall|i: int| 0 <= i < pieces.len() ==> #[trigger] str_views(pieces)[i] == pieces[i]@,
        text_option_view(Some(text)) == Some(text@),
        text_option_view(None) is None,
{
}

} // verus!
