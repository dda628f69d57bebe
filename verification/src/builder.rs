//! Assembling the URL of a request from a base, a path, the token and the
//! parameters.

use crate::address::{
    append_pair, cannot_be_a_base, has_room, is_not_a_base, is_short, push_segment, pushed,
    query_pairs, url_path_segments, url_query_pairs, url_with_query_pair, url_with_segment,
    written, MAX_PART_BYTES, MAX_URL_BYTES,
};
use crate::error::ClientError;
use crate::path::{segments_of, split_path, texts, valid_path, valid_segment};
use url::Url;
use vstd::prelude::*;
use vstd::string::*;

verus! {

/// The name of the query parameter that carries the token.
pub open spec fn token_name() -> Seq<char> {
    "token"@
}

/// The URL with one more segment, where both are short enough.
pub open spec fn with_segment(url: Url, segment: Seq<char>) -> Option<Url> {
    if has_room(url) && is_short(segment) {
        Some(url_with_segment(url, segment))
    } else {
        None
    }
}

/// The URL with the segments appended in order, where every step fits.
pub open spec fn with_segments(url: Url, segments: Seq<Seq<char>>) -> Option<Url>
    decreases segments.len(),
{
    if segments.len() == 0 {
        Some(url)
    } else {
        match with_segments(url, segments.drop_last()) {
            Some(so_far) => with_segment(so_far, segments.last()),
            None => None,
        }
    }
}

/// The URL with one more query pair, where all three are short enough.
pub open spec fn with_pair(url: Url, name: Seq<char>, value: Seq<char>) -> Option<Url> {
    if has_room(url) && is_short(name) && is_short(value) {
        Some(url_with_query_pair(url, name, value))
    } else {
        None
    }
}

/// The URL with the query pairs appended in order, where every step fits.
pub open spec fn with_pairs(url: Url, pairs: Seq<(Seq<char>, Seq<char>)>) -> Option<Url>
    decreases pairs.len(),
{
    if pairs.len() == 0 {
        Some(url)
    } else {
        match with_pairs(url, pairs.drop_last()) {
            Some(so_far) => with_pair(so_far, pairs.last().0, pairs.last().1),
            None => None,
        }
    }
}

/// The path segments after each of `more` was pushed in order.
pub open spec fn all_pushed(segments: Seq<Seq<char>>, more: Seq<Seq<char>>) -> Seq<Seq<char>>
    decreases more.len(),
{
    if more.len() == 0 {
        segments
    } else {
        pushed(all_pushed(segments, more.drop_last()), more.last())
    }
}

/// Pushing segments that are not empty appends them, but that the first
/// takes the place of the empty segment of a path that is a lone slash.
pub proof fn lemma_all_pushed_appends(segments: Seq<Seq<char>>, more: Seq<Seq<char>>)
    requires
        forall|i: int| 0 <= i < more.len() ==> (#[trigger] more[i]).len() > 0,
    ensures
        all_pushed(segments, more) == if more.len() == 0 {
            segments
        } else if segments == seq![Seq::<char>::empty()] {
            more
        } else {
            segments + more
        },
    decreases more.len(),
{
    if more.len() > 0 {
        let shorter = more.drop_last();
        lemma_all_pushed_appends(segments, shorter);
        let so_far = all_pushed(segments, shorter);
        let lone = seq![Seq::<char>::empty()];
        if shorter.len() == 0 {
            if segments == lone {
                assert(seq![more.last()] =~= more);
            } else {
                assert(segments.push(more.last()) =~= segments + more);
            }
        } else {
            if segments == lone {
                assert(so_far == shorter);
                assert(shorter[0] == more[0]);
                assert(so_far != lone) by {
                    assert(so_far[0].len() > 0);
                    assert(lone[0].len() == 0);
                }
                assert(shorter.push(more.last()) =~= more);
            } else {
                assert(so_far == segments + shorter);
                assert(so_far != lone) by {
                    if so_far.len() == 1 {
                        assert(segments.len() == 0);
                        assert(so_far[0] == shorter[0]);
                        assert(shorter[0] == more[0]);
                        assert(lone[0].len() == 0);
                    }
                }
                assert((segments + shorter).push(more.last()) =~= segments + more);
            }
        }
    }
}

/// Whether requests can be built on `base`: it has a path of segments, and
/// no query of its own.
pub open spec fn usable_base(base: Url) -> bool {
    !cannot_be_a_base(base) && url_query_pairs(base).len() == 0
}

/// The parameters of a request as pairs of characters; none where no list
/// is given.
pub open spec fn pairs_of(params: Option<Vec<(&str, &str)>>) -> Seq<(Seq<char>, Seq<char>)> {
    match params {
        Some(list) => Seq::new(list@.len(), |i: int| (list@[i].0@, list@[i].1@)),
        None => Seq::empty(),
    }
}

/// The URL of a request: the base, then the segments of the path, then the
/// token as the first query pair, then the parameters in the order given.
/// There is none where the base is not usable, the path is not valid, or a
/// step does not fit.
pub open spec fn built_url(
    base: Url,
    path: Seq<char>,
    token: Seq<char>,
    params: Seq<(Seq<char>, Seq<char>)>,
) -> Option<Url> {
    if usable_base(base) && valid_path(path) {
        match with_segments(base, segments_of(path)) {
            Some(with_path) => match with_pair(with_path, token_name(), token) {
                Some(with_token) => with_pairs(with_token, params),
                None => None,
            },
            None => None,
        }
    } else {
        None
    }
}

/// Where the first segments do not fit, all of them do not.
pub proof fn lemma_segments_stop(url: Url, segments: Seq<Seq<char>>, k: int)
    requires
        0 <= k <= segments.len(),
        with_segments(url, segments.subrange(0, k)) is None,
    ensures
        with_segments(url, segments) is None,
    decreases segments.len() - k,
{
    if k == segments.len() {
        assert(segments.subrange(0, k) =~= segments);
    } else {
        assert(segments.subrange(0, k + 1).drop_last() =~= segments.subrange(0, k));
        lemma_segments_stop(url, segments, k + 1);
    }
}

/// Where the first pairs do not fit, all of them do not.
pub proof fn lemma_pairs_stop(url: Url, pairs: Seq<(Seq<char>, Seq<char>)>, k: int)
    requires
        0 <= k <= pairs.len(),
        with_pairs(url, pairs.subrange(0, k)) is None,
    ensures
        with_pairs(url, pairs) is None,
    decreases pairs.len() - k,
{
    if k == pairs.len() {
        assert(pairs.subrange(0, k) =~= pairs);
    } else {
        assert(pairs.subrange(0, k + 1).drop_last() =~= pairs.subrange(0, k));
        lemma_pairs_stop(url, pairs, k + 1);
    }
}

/// Pushes one segment, where the URL and the segment are short enough.
fn try_push_segment(url: &mut Url, segment: &str) -> (done: bool)
    requires
        !cannot_be_a_base(*old(url)),
        valid_segment(segment@),
    ensures
        done <==> with_segment(*old(url), segment@) is Some,
        done ==> {
            &&& Some(*final(url)) == with_segment(*old(url), segment@)
            &&& !cannot_be_a_base(*final(url))
            &&& url_query_pairs(*final(url)) == url_query_pairs(*old(url))
            &&& url_path_segments(*old(url)) matches Some(segments) ==> url_path_segments(
                *final(url),
            ) == Some(pushed(segments, segment@))
        },
{
    if written(url).len() <= MAX_URL_BYTES && segment.len() <= MAX_PART_BYTES {
        push_segment(url, segment);
        true
    } else {
        false
    }
}

/// Appends one query pair, where the URL and the pair are short enough.
fn try_append_pair(url: &mut Url, name: &str, value: &str) -> (done: bool)
    ensures
        done <==> with_pair(*old(url), name@, value@) is Some,
        done ==> {
            &&& Some(*final(url)) == with_pair(*old(url), name@, value@)
            &&& cannot_be_a_base(*final(url)) == cannot_be_a_base(*old(url))
            &&& url_query_pairs(*final(url)) == url_query_pairs(*old(url)).push((name@, value@))
            &&& url_path_segments(*final(url)) == url_path_segments(*old(url))
        },
{
    if written(url).len() <= MAX_URL_BYTES && name.len() <= MAX_PART_BYTES && value.len()
        <= MAX_PART_BYTES {
        append_pair(url, name, value);
        true
    } else {
        false
    }
}

/// Builds the URL of a request on `base`.
///
/// The path is appended segment by segment, then the token as the query
/// parameter `token`, then the parameters in the order given; a name that
/// occurs twice is kept twice. A path that is not valid, a base that
/// cannot take segments or has a query of its own, and a URL too long to
/// append to are refused.
pub fn build_url(base: Url, path: &str, token: &str, params: Option<Vec<(&str, &str)>>) -> (built:
    Result<Url, ClientError>)
    ensures
        match built {
            Ok(url) => {
                &&& built_url(base, path@, token@, pairs_of(params)) == Some(url)
                &&& url_query_pairs(url) == seq![(token_name(), token@)] + pairs_of(params)
                &&& params is None ==> url_query_pairs(url) == seq![(token_name(), token@)]
                &&& url_path_segments(base) matches Some(segments) ==> url_path_segments(url)
                    == Some(all_pushed(segments, segments_of(path@)))
            },
            Err(error) => error is MalformedUrl && built_url(
                base,
                path@,
                token@,
                pairs_of(params),
            ) is None,
        },
{
    if is_not_a_base(&base) || query_pairs(&base).len() != 0 {
        return Err(ClientError::MalformedUrl);
    }
    let parts = match split_path(path) {
        Some(parts) => parts,
        None => {
            return Err(ClientError::MalformedUrl);
        },
    };
    let ghost segments = segments_of(path@);
    let mut url = base;
    let mut i: usize = 0;
    while i < parts.len()
        invariant
            i <= parts.len(),
            texts(parts@) == segments,
            valid_path(path@),
            segments == segments_of(path@),
            with_segments(base, segments.subrange(0, i as int)) == Some(url),
            !cannot_be_a_base(url),
            url_query_pairs(url) == url_query_pairs(base),
            url_path_segments(base) matches Some(start) ==> url_path_segments(url) == Some(
                all_pushed(start, segments.subrange(0, i as int)),
            ),
        decreases parts.len() - i,
    {
        let part = parts[i];
        assert(part@ == segments[i as int]);
        assert(segments.subrange(0, i + 1).drop_last() =~= segments.subrange(0, i as int));
        if !try_push_segment(&mut url, part) {
            proof {
                lemma_segments_stop(base, segments, i + 1);
            }
            return Err(ClientError::MalformedUrl);
        }
        i += 1;
    }
    assert(segments.subrange(0, parts.len() as int) =~= segments);
    let ghost with_path = url;
    if !try_append_pair(&mut url, "token", token) {
        return Err(ClientError::MalformedUrl);
    }
    let ghost with_token = url;
    let ghost pairs = pairs_of(params);
    assert(built_url(base, path@, token@, pairs) == with_pairs(with_token, pairs));
    match params {
        Some(list) => {
            let mut j: usize = 0;
            while j < list.len()
                invariant
                    j <= list.len(),
                    pairs == Seq::new(list@.len(), |k: int| (list@[k].0@, list@[k].1@)),
                    pairs == pairs_of(params),
                    built_url(base, path@, token@, pairs) == with_pairs(with_token, pairs),
                    with_pairs(with_token, pairs.subrange(0, j as int)) == Some(url),
                    url_query_pairs(url) == url_query_pairs(with_token) + pairs.subrange(
                        0,
                        j as int,
                    ),
                    url_path_segments(url) == url_path_segments(with_token),
                decreases list.len() - j,
            {
                let (name, value) = list[j];
                assert(pairs[j as int] == (name@, value@));
                assert(pairs.subrange(0, j + 1).drop_last() =~= pairs.subrange(0, j as int));
                if !try_append_pair(&mut url, name, value) {
                    proof {
                        lemma_pairs_stop(with_token, pairs, j + 1);
                    }
                    return Err(ClientError::MalformedUrl);
                }
                assert(url_query_pairs(url) =~= url_query_pairs(with_token) + pairs.subrange(
                    0,
                    j + 1,
                ));
                j += 1;
            }
            assert(pairs.subrange(0, list.len() as int) =~= pairs);
        },
        None => {},
    }
    assert(url_query_pairs(url) =~= seq![(token_name(), token@)] + pairs);
    Ok(url)
}

} // verus!
