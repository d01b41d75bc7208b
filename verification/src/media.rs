use vstd::prelude::*;
use crate::text::{split_on, split_str, str_eq};

verus! {

/// A media type: a top-level type and a subtype, as in `text/html`.
pub struct MediaType {
    pub top: String,
    pub sub: String,
}

/// The mathematical value of a media type: its two parts as character
/// sequences.
pub ghost struct MediaTypeModel {
    pub top: Seq<char>,
    pub sub: Seq<char>,
}

impl MediaType {
    /// The mathematical value of this media type.
    pub open spec fn model(&self) -> MediaTypeModel {
        MediaTypeModel { top: self.top@, sub: self.sub@ }
    }
}

/// The mathematical value of a possibly-absent media type.
pub open spec fn model_of(content_type: &Option<MediaType>) -> Option<MediaTypeModel> {
    match content_type {
        Option::Some(mt) => Option::Some(mt.model()),
        Option::None => Option::None,
    }
}

/// Whether one exclusion pattern matches a media type. A pattern without a
/// slash is not a valid media-type pattern and never matches; otherwise its
/// first two slash-separated pieces are its top-level type and subtype, a
/// subtype of `"*"` matches any subtype under the same top-level type, and
/// any other pattern must equal the media type exactly.
pub open spec fn pattern_matches(pattern: Seq<char>, mt: MediaTypeModel) -> bool {
    let pieces = split_on(pattern, '/');
    if pieces.len() < 2 {
        false
    } else if pieces[1] == "*"@ {
        pieces[0] == mt.top
    } else {
        pieces[0] == mt.top && pieces[1] == mt.sub
    }
}

/// Whether the exclusion list disables compression for `content_type`: true
/// exactly when the content type is present and some pattern matches it. An
/// absent content type never matches, so compression proceeds.
pub open spec fn excluded(
    content_type: Option<MediaTypeModel>,
    exclusions: Seq<Seq<char>>,
) -> bool {
    match content_type {
        Option::Some(mt) => exists|i: int|
            0 <= i < exclusions.len() && pattern_matches(exclusions[i], mt),
        Option::None => false,
    }
}

/// Whether one exclusion pattern string matches the media type.
fn pattern_matches_exec(pattern: &String, mt: &MediaType) -> (r: bool)
    ensures
        r == pattern_matches(pattern@, mt.model()),
{
    let pieces = split_str(pattern.as_str(), '/');
    if pieces.len() < 2 {
        proof {
            assert(split_on(pattern@, '/').len() < 2);
        }
        false
    } else {
        proof {
            assert(pieces.deep_view()[0] == pieces@[0]@);
            assert(pieces.deep_view()[1] == pieces@[1]@);
        }
        if str_eq(pieces[1].as_str(), "*") {
            str_eq(pieces[0].as_str(), mt.top.as_str())
        } else {
            str_eq(pieces[0].as_str(), mt.top.as_str()) && str_eq(
                pieces[1].as_str(),
                mt.sub.as_str(),
            )
        }
    }
}

/// Decides whether compression must be skipped for a response of the given
/// content type under the configured exclusion patterns. Malformed patterns
/// are ignored, not errors, and the iteration order cannot change the result.
pub fn should_skip(content_type: &Option<MediaType>, exclusions: &Vec<String>) -> (r: bool)
    ensures
        r == excluded(model_of(content_type), exclusions.deep_view()),
{
    match content_type {
        Option::Some(mt) => {
            let n: usize = exclusions.len();
            let mut i: usize = 0;
            while i < n
                invariant
                    i <= n,
                    n == exclusions@.len(),
                    model_of(content_type) == Option::Some(mt.model()),
                    forall|i2: int|
                        0 <= i2 < i ==> !pattern_matches(exclusions.deep_view()[i2], mt.model()),
                decreases n - i,
            {
                if pattern_matches_exec(&exclusions[i], mt) {
                    proof {
                        assert(pattern_matches(exclusions.deep_view()[i as int], mt.model()));
                    }
                    return true;
                }
                i += 1;
            }
            false
        },
        Option::None => false,
    }
}

} // verus!
