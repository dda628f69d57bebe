//! The paths of the service's endpoints, and their segments.

use crate::text::str_eq;
use vstd::prelude::*;
use vstd::string::*;

verus! {

/// Whether `c` may stand in a path segment as it is: a visible ASCII
/// character that is neither a separator of the parts of a URL, nor one that
/// a URL writes in percent notation, nor the bar that a file URL reads as
/// the colon of a drive letter.
pub open spec fn is_segment_char(c: char) -> bool {
    &&& '!' <= c <= '~'
    &&& c != '"' && c != '#' && c != '%' && c != '/' && c != '<' && c != '>'
    &&& c != '?' && c != '\\' && c != '`' && c != '{' && c != '|' && c != '}'
}

/// Whether `s` is one of the two segments that stand for a directory
/// itself and for the one above it.
pub open spec fn is_dot_segment(s: Seq<char>) -> bool {
    s == "."@ || s == ".."@
}

/// Whether `s` can be appended to the path of a URL as one segment.
pub open spec fn valid_segment(s: Seq<char>) -> bool {
    &&& s.len() > 0
    &&& !is_dot_segment(s)
    &&& forall|i: int| 0 <= i < s.len() ==> is_segment_char(#[trigger] s[i])
}

/// The pieces of `s` between its slashes, in order. There is always one
/// piece more than there are slashes; a piece may be empty.
pub open spec fn split_on_slash(s: Seq<char>) -> Seq<Seq<char>>
    decreases s.len(),
{
    if s.len() == 0 {
        seq![Seq::empty()]
    } else {
        let before = split_on_slash(s.drop_last());
        if s.last() == '/' {
            before.push(Seq::empty())
        } else {
            before.drop_last().push(before.last().push(s.last()))
        }
    }
}

/// The path without the one slash that it may begin with.
pub open spec fn relative(path: Seq<char>) -> Seq<char> {
    if path.len() > 0 && path[0] == '/' {
        path.drop_first()
    } else {
        path
    }
}

/// The segments that `path` names, in order.
pub open spec fn segments_of(path: Seq<char>) -> Seq<Seq<char>> {
    split_on_slash(relative(path))
}

/// Whether `path` names one or more segments that can be appended to a
/// URL: after the slash that it may begin with, every piece between
/// slashes is a valid segment.
pub open spec fn valid_path(path: Seq<char>) -> bool {
    forall|k: int| 0 <= k < segments_of(path).len() ==> valid_segment(#[trigger] segments_of(path)[k])
}

/// The characters of each piece of text in `parts`.
pub open spec fn texts(parts: Seq<&str>) -> Seq<Seq<char>> {
    Seq::new(parts.len(), |i: int| parts[i]@)
}

/// The pieces of `parts` written one after the other with a slash between
/// each two.
pub open spec fn join_with_slash(parts: Seq<Seq<char>>) -> Seq<char>
    decreases parts.len(),
{
    if parts.len() == 0 {
        Seq::empty()
    } else if parts.len() == 1 {
        parts[0]
    } else {
        join_with_slash(parts.drop_last()).push('/') + parts.last()
    }
}

/// Splitting loses nothing: the pieces hold no slash, and joined with
/// slashes they are the text that was split.
pub proof fn lemma_split_then_join(s: Seq<char>)
    ensures
        join_with_slash(split_on_slash(s)) == s,
        forall|k: int, j: int|
            0 <= k < split_on_slash(s).len() && 0 <= j < split_on_slash(s)[k].len()
                ==> #[trigger] split_on_slash(s)[k][j] != '/',
    decreases s.len(),
{
    let parts = split_on_slash(s);
    if s.len() == 0 {
        assert(join_with_slash(parts) =~= s);
    } else {
        let shorter = s.drop_last();
        let before = split_on_slash(shorter);
        lemma_split_then_join(shorter);
        lemma_split_nonempty(shorter);
        if s.last() == '/' {
            assert(parts.drop_last() =~= before);
            assert(join_with_slash(parts) =~= shorter.push('/'));
            assert(shorter.push('/') =~= s);
        } else {
            let grown = before.last().push(s.last());
            assert(parts.last() == grown);
            if before.len() == 1 {
                assert(join_with_slash(before) == before[0]);
                assert(join_with_slash(parts) =~= s);
            } else {
                assert(parts.drop_last() =~= before.drop_last());
                assert(join_with_slash(before) == join_with_slash(before.drop_last()).push('/')
                    + before.last());
                assert(join_with_slash(parts) =~= join_with_slash(before).push(s.last()));
                assert(shorter.push(s.last()) =~= s);
            }
            assert forall|k: int, j: int|
                0 <= k < parts.len() && 0 <= j < parts[k].len() implies #[trigger] parts[k][j]
                != '/' by {
                if k < before.len() - 1 {
                    assert(parts[k] == before[k]);
                } else if j < before.last().len() {
                    assert(parts[k][j] == before[before.len() - 1][j]);
                }
            }
        }
    }
}

/// Splitting never gives an empty list of pieces.
pub proof fn lemma_split_nonempty(s: Seq<char>)
    ensures
        split_on_slash(s).len() >= 1,
    decreases s.len(),
{
    if s.len() > 0 {
        lemma_split_nonempty(s.drop_last());
    }
}

/// A character of `s` that is no slash stands in one of the pieces of `s`.
pub proof fn lemma_split_keeps_chars(s: Seq<char>, i: int)
    requires
        0 <= i < s.len(),
        s[i] != '/',
    ensures
        exists|k: int, j: int|
            0 <= k < split_on_slash(s).len() && 0 <= j < split_on_slash(s)[k].len()
                && #[trigger] split_on_slash(s)[k][j] == s[i],
    decreases s.len(),
{
    let shorter = s.drop_last();
    let before = split_on_slash(shorter);
    lemma_split_nonempty(shorter);
    let last = before.len() - 1;
    if i == s.len() - 1 {
        let j = before.last().len() as int;
        assert(split_on_slash(s)[last][j] == s[i]);
    } else {
        lemma_split_keeps_chars(shorter, i);
        let (k, j) = choose|k: int, j: int|
            0 <= k < before.len() && 0 <= j < before[k].len() && #[trigger] before[k][j]
                == shorter[i];
        assert(split_on_slash(s)[k][j] == s[i]);
    }
}

/// Splits a path into its segments.
///
/// The result is the list of segments where the path is valid, and nothing
/// where it is not.
pub fn split_path<'a>(path: &'a str) -> (segments: Option<Vec<&'a str>>)
    ensures
        match segments {
            Some(parts) => valid_path(path@) && texts(parts@) == segments_of(path@),
            None => !valid_path(path@),
        },
{
    broadcast use is_ascii_spec_bytes;

    if !path.is_ascii() {
        proof {
            let i = choose|i: int| 0 <= i < path@.len() && !('\0' <= #[trigger] path@[i] <= '\u{7f}');
            lemma_bad_char_spoils(path@, i);
        }
        return None;
    }
    let bytes = path.as_bytes();
    let n = bytes.len();
    assert(n == path@.len());
    let first: usize = if n > 0 && bytes[0] == 47 {
        1
    } else {
        0
    };
    let ghost rest = relative(path@);
    assert(rest =~= path@.subrange(first as int, n as int));
    let mut parts: Vec<&'a str> = Vec::new();
    let mut good = true;
    let mut start: usize = first;
    let mut i: usize = first;
    assert(path@.subrange(first as int, first as int) =~= Seq::<char>::empty());
    assert(texts(parts@).push(path@.subrange(start as int, i as int)) =~= split_on_slash(
        rest.subrange(0, 0),
    ));
    while i < n
        invariant
            first <= start <= i <= n,
            n == path@.len(),
            is_ascii(path),
            bytes@ == path.spec_bytes(),
            rest == path@.subrange(first as int, n as int),
            rest == relative(path@),
            split_on_slash(rest.subrange(0, i - first)) == texts(parts@).push(
                path@.subrange(start as int, i as int),
            ),
            forall|j: int| start <= j < i ==> is_segment_char(#[trigger] path@[j]),
            good <==> forall|k: int| 0 <= k < parts@.len() ==> valid_segment(#[trigger] texts(parts@)[k]),
        decreases n - i,
    {
        let b = bytes[i];
        assert(b == path@[i as int] as u8);
        let ghost shorter = rest.subrange(0, i - first);
        let ghost longer = rest.subrange(0, i - first + 1);
        assert(longer.drop_last() =~= shorter);
        assert(longer.last() == path@[i as int]);
        if b == 47 {
            let piece = path.substring_ascii(start, i);
            let fine = good && segment_is_valid(piece);
            let ghost old_parts = parts@;
            parts.push(piece);
            proof {
                assert(texts(parts@) =~= texts(old_parts).push(piece@));
                assert(path@.subrange(i + 1, i + 1) =~= Seq::<char>::empty());
                assert(fine <==> forall|k: int| 0 <= k < parts@.len() ==> valid_segment(#[trigger] texts(parts@)[k])) by {
                    if fine {
                        assert forall|k: int| 0 <= k < parts@.len() implies valid_segment(#[trigger] texts(parts@)[k]) by {
                            if k < old_parts.len() {
                                assert(texts(parts@)[k] == texts(old_parts)[k]);
                            }
                        }
                    } else if good {
                        assert(!valid_segment(texts(parts@)[old_parts.len() as int]));
                    } else {
                        let k = choose|k: int| 0 <= k < old_parts.len() && !valid_segment(#[trigger] texts(old_parts)[k]);
                        assert(texts(parts@)[k] == texts(old_parts)[k]);
                    }
                }
            }
            good = fine;
            start = i + 1;
        } else {
            if !byte_is_segment_char(b) {
                proof {
                    lemma_bad_char_spoils(path@, i as int);
                }
                return None;
            }
            proof {
                let before = split_on_slash(shorter);
                assert(before.drop_last() =~= texts(parts@));
                assert(before.last().push(path@[i as int]) =~= path@.subrange(
                    start as int,
                    i + 1,
                ));
            }
        }
        i += 1;
    }
    assert(rest.subrange(0, n - first) =~= rest);
    let piece = path.substring_ascii(start, n);
    let fine = good && segment_is_valid(piece);
    let ghost old_parts = parts@;
    parts.push(piece);
    proof {
        assert(texts(parts@) =~= texts(old_parts).push(piece@));
        assert(texts(parts@) == segments_of(path@));
        if fine {
            assert forall|k: int| 0 <= k < parts@.len() implies valid_segment(#[trigger] texts(parts@)[k]) by {
                if k < old_parts.len() {
                    assert(texts(parts@)[k] == texts(old_parts)[k]);
                }
            }
        } else if good {
            assert(!valid_segment(texts(parts@)[old_parts.len() as int]));
        } else {
            let k = choose|k: int| 0 <= k < old_parts.len() && !valid_segment(#[trigger] texts(old_parts)[k]);
            assert(texts(parts@)[k] == texts(old_parts)[k]);
        }
    }
    if fine {
        Some(parts)
    } else {
        None
    }
}

/// A path with a character that is neither a slash nor allowed in a
/// segment is not valid.
pub proof fn lemma_bad_char_spoils(path: Seq<char>, i: int)
    requires
        0 <= i < path.len(),
        path[i] != '/',
        !is_segment_char(path[i]),
    ensures
        !valid_path(path),
{
    let rest = relative(path);
    let at = if path[0] == '/' {
        i - 1
    } else {
        i
    };
    assert(rest[at] == path[i]);
    lemma_split_keeps_chars(rest, at);
    let (k, j) = choose|k: int, j: int|
        0 <= k < split_on_slash(rest).len() && 0 <= j < split_on_slash(rest)[k].len()
            && #[trigger] split_on_slash(rest)[k][j] == rest[at];
    assert(!valid_segment(segments_of(path)[k]));
}

/// Whether the byte `b` is an ASCII character that may stand in a segment.
fn byte_is_segment_char(b: u8) -> (allowed: bool)
    requires
        b < 128,
    ensures
        allowed == is_segment_char(b as char),
{
    33 <= b && b <= 126 && b != 34 && b != 35 && b != 37 && b != 47 && b != 60 && b != 62
        && b != 63 && b != 92 && b != 96 && b != 123 && b != 124 && b != 125
}

/// Whether a piece of allowed characters is a segment: not empty, and not
/// a dot segment.
fn segment_is_valid(piece: &str) -> (valid: bool)
    requires
        forall|i: int| 0 <= i < piece@.len() ==> is_segment_char(#[trigger] piece@[i]),
    ensures
        valid == valid_segment(piece@),
{
    !piece.is_empty() && !str_eq(piece, ".") && !str_eq(piece, "..")
}

} // verus!
