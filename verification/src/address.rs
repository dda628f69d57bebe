//! What the library reads from and appends to a URL.
//!
//! The URL type belongs to the URL library, which parses and serialises it.
//! Nothing in this file is proved: each contract states what the
//! documentation and the source of the underlying method give.

use crate::path::valid_segment;
use url::Url;
use vstd::prelude::*;
use vstd::utf8::encode_utf8;

verus! {

#[verifier::external_type_specification]
#[verifier::external_body]
pub struct ExUrl(Url);

/// What `Url::parse` makes of `text`, where it accepts it.
pub uninterp spec fn parsed_url(text: Seq<char>) -> Option<Url>;

/// What `Url::cannot_be_a_base` returns: whether the URL has no path made
/// of segments, as a `mailto:` or `data:` URL has none.
pub uninterp spec fn cannot_be_a_base(url: Url) -> bool;

/// What `Url::as_str` returns: the URL written out.
pub uninterp spec fn url_text(url: Url) -> Seq<char>;

/// What `Url::path_segments` yields, in order: the segments of the path as
/// they are written in the URL, where its path begins with a slash.
pub uninterp spec fn url_path_segments(url: Url) -> Option<Seq<Seq<char>>>;

/// What `Url::query_pairs` yields, in order: the names and values of the
/// query, decoded.
pub uninterp spec fn url_query_pairs(url: Url) -> Seq<(Seq<char>, Seq<char>)>;

/// The URL that `PathSegmentsMut::push` leaves when `segment` is pushed on
/// the path of `url`.
pub uninterp spec fn url_with_segment(url: Url, segment: Seq<char>) -> Url;

/// The URL that `Serializer::append_pair` leaves when the pair is appended
/// to the query of `url`.
pub uninterp spec fn url_with_query_pair(url: Url, name: Seq<char>, value: Seq<char>) -> Url;

/// The longest URL, in bytes, that the library appends to.
pub const MAX_URL_BYTES: usize = 0x4000_0000;

/// The longest segment, name or value, in bytes, that the library appends.
pub const MAX_PART_BYTES: usize = 0x0800_0000;

/// The length of `text` in bytes, as `str::len` gives it.
pub open spec fn byte_len(text: Seq<char>) -> usize {
    encode_utf8(text).len() as usize
}

/// Whether `url` is short enough to be appended to.
pub open spec fn has_room(url: Url) -> bool {
    byte_len(url_text(url)) <= MAX_URL_BYTES
}

/// Whether `text` is short enough to be appended to a URL.
pub open spec fn is_short(text: Seq<char>) -> bool {
    byte_len(text) <= MAX_PART_BYTES
}

/// The segments of a path after `segment` was pushed on it. A path that is
/// a lone slash has one empty segment, which the new one replaces.
pub open spec fn pushed(segments: Seq<Seq<char>>, segment: Seq<char>) -> Seq<Seq<char>> {
    if segments == seq![Seq::<char>::empty()] {
        seq![segment]
    } else {
        segments.push(segment)
    }
}

/// The names and values of `pairs`, as characters.
pub open spec fn owned_pairs(pairs: Seq<(String, String)>) -> Seq<(Seq<char>, Seq<char>)> {
    Seq::new(pairs.len(), |i: int| (pairs[i].0@, pairs[i].1@))
}

/// Calls `Url::parse` and drops the error.
#[verifier::external_body]
pub(crate) fn parse(text: &str) -> (url: Option<Url>)
    ensures
        url == parsed_url(text@),
{
    Url::parse(text).ok()
}

/// Calls `Url::cannot_be_a_base`.
#[verifier::external_body]
pub(crate) fn is_not_a_base(url: &Url) -> (answer: bool)
    ensures
        answer == cannot_be_a_base(*url),
{
    url.cannot_be_a_base()
}

/// Calls `Url::as_str`.
#[verifier::external_body]
pub(crate) fn written<'a>(url: &'a Url) -> (text: &'a str)
    ensures
        text@ == url_text(*url),
{
    url.as_str()
}

/// Calls `Url::query_pairs` and collects what it yields.
#[verifier::external_body]
pub(crate) fn query_pairs(url: &Url) -> (pairs: Vec<(String, String)>)
    ensures
        owned_pairs(pairs@) == url_query_pairs(*url),
{
    url.query_pairs().into_owned().collect()
}

/// Calls `PathSegmentsMut::push` on the path of `url`.
///
/// The URL library appends a slash and the segment to the path, and leaves
/// the query as it was. It writes a segment of allowed characters as it is,
/// and skips a dot segment, which `valid_segment` leaves out. It refuses a
/// URL that cannot be a base, and keeps positions in 32 bits, which the two
/// limits of length make enough.
#[verifier::external_body]
pub(crate) fn push_segment(url: &mut Url, segment: &str)
    requires
        !cannot_be_a_base(*old(url)),
        valid_segment(segment@),
        has_room(*old(url)),
        is_short(segment@),
    ensures
        *final(url) == url_with_segment(*old(url), segment@),
        !cannot_be_a_base(*final(url)),
        url_query_pairs(*final(url)) == url_query_pairs(*old(url)),
        url_path_segments(*old(url)) matches Some(segments) ==> url_path_segments(*final(url))
            == Some(pushed(segments, segment@)),
{
    if let Ok(mut segments) = url.path_segments_mut() {
        segments.push(segment);
    }
}

/// Calls `Serializer::append_pair` on the query of `url`.
///
/// The URL library appends the pair, encoded, after the pairs that the
/// query holds, so that reading the query gives the old pairs and then this
/// one; the path stays as it was. It keeps positions in 32 bits, which the
/// two limits of length make enough.
#[verifier::external_body]
pub(crate) fn append_pair(url: &mut Url, name: &str, value: &str)
    requires
        has_room(*old(url)),
        is_short(name@),
        is_short(value@),
    ensures
        *final(url) == url_with_query_pair(*old(url), name@, value@),
        cannot_be_a_base(*final(url)) == cannot_be_a_base(*old(url)),
        url_query_pairs(*final(url)) == url_query_pairs(*old(url)).push((name@, value@)),
        url_path_segments(*final(url)) == url_path_segments(*old(url)),
{
    url.query_pairs_mut().append_pair(name, value);
}

} // verus!
