use vstd::prelude::*;
use crate::text::{split_on, split_str, str_eq, trim_str, trimmed};

verus! {

/// The single outcome of encoding selection for one response: compress with
/// brotli, compress with gzip, or leave the body as it is (identity).
#[derive(Clone, Copy, PartialEq, Eq, Structural, Debug)]
pub enum EncodingChoice {
    Identity,
    Brotli,
    Gzip,
}

/// The encoding tokens carried by one Accept-Encoding header value: the
/// pieces between commas, each with surrounding whitespace removed.
pub open spec fn tokens_of(value: Seq<char>) -> Seq<Seq<char>> {
    split_on(value, ',').map_values(|p: Seq<char>| trimmed(p))
}

/// Whether some header value among `values` carries exactly the token `enc`.
/// Matching is exact and case-sensitive; unrecognized tokens are plain
/// non-matches.
pub open spec fn accepts(values: Seq<Seq<char>>, enc: Seq<char>) -> bool {
    exists|i: int, j: int|
        0 <= i < values.len() && 0 <= j < tokens_of(values[i]).len() && tokens_of(values[i])[j]
            == enc
}

/// Whether the client's Accept-Encoding header values name the encoding
/// `enc`: each value is split on commas and each piece trimmed before the
/// exact comparison.
pub fn accepts_encoding(values: &Vec<String>, enc: &str) -> (r: bool)
    ensures
        r == accepts(values.deep_view(), enc@),
{
    let n: usize = values.len();
    let mut i: usize = 0;
    while i < n
        invariant
            i <= n,
            n == values@.len(),
            forall|i2: int, j2: int|
                0 <= i2 < i && 0 <= j2 < tokens_of(values.deep_view()[i2]).len()
                    ==> tokens_of(values.deep_view()[i2])[j2] != enc@,
        decreases n - i,
    {
        let pieces = split_str(values[i].as_str(), ',');
        let m: usize = pieces.len();
        let mut j: usize = 0;
        while j < m
            invariant
                j <= m,
                i < n,
                n == values@.len(),
                pieces.deep_view() == split_on(values.deep_view()[i as int], ','),
                m == pieces@.len(),
                forall|j2: int|
                    0 <= j2 < j ==> tokens_of(values.deep_view()[i as int])[j2] != enc@,
            decreases m - j,
        {
            let tok = trim_str(pieces[j].as_str());
            proof {
                assert(tokens_of(values.deep_view()[i as int])[j as int] == trimmed(
                    pieces.deep_view()[j as int],
                ));
            }
            if str_eq(tok.as_str(), enc) {
                return true;
            }
            j += 1;
        }
        i += 1;
    }
    false
}

/// Which encoding the selection policy chooses, given the client's accepted
/// tokens and which codecs are enabled: brotli first whenever it is enabled
/// and accepted, gzip next, identity otherwise.
pub open spec fn select_spec(
    values: Seq<Seq<char>>,
    brotli_enabled: bool,
    gzip_enabled: bool,
) -> EncodingChoice {
    if brotli_enabled && accepts(values, "br"@) {
        EncodingChoice::Brotli
    } else if gzip_enabled && accepts(values, "gzip"@) {
        EncodingChoice::Gzip
    } else {
        EncodingChoice::Identity
    }
}

/// Picks at most one encoding for a response, from the Accept-Encoding header
/// values and the enabled-codec flags. Pure: no side effects.
pub fn select(values: &Vec<String>, brotli_enabled: bool, gzip_enabled: bool) -> (c:
    EncodingChoice)
    ensures
        c == select_spec(values.deep_view(), brotli_enabled, gzip_enabled),
{
    if brotli_enabled && accepts_encoding(values, "br") {
        EncodingChoice::Brotli
    } else if gzip_enabled && accepts_encoding(values, "gzip") {
        EncodingChoice::Gzip
    } else {
        EncodingChoice::Identity
    }
}

/// Law: whenever brotli is enabled and the client accepts `"br"`, selection
/// chooses brotli — never gzip — whatever the remaining tokens say and
/// whether or not gzip is also enabled and accepted.
pub proof fn lemma_select_prefers_brotli(values: Seq<Seq<char>>, gzip_enabled: bool)
    requires
        accepts(values, "br"@),
    ensures
        select_spec(values, true, gzip_enabled) == EncodingChoice::Brotli,
{
}

/// Law: when brotli is unavailable — disabled, or its token not among the
/// accepted tokens — but gzip is enabled and accepted, selection falls back
/// to gzip.
pub proof fn lemma_select_fallback_gzip(
    values: Seq<Seq<char>>,
    brotli_enabled: bool,
    gzip_enabled: bool,
)
    requires
        !(brotli_enabled && accepts(values, "br"@)),
        gzip_enabled,
        accepts(values, "gzip"@),
    ensures
        select_spec(values, brotli_enabled, gzip_enabled) == EncodingChoice::Gzip,
{
}

/// Law: when no enabled codec's token is among the accepted tokens, selection
/// chooses identity.
pub proof fn lemma_select_unsupported_identity(
    values: Seq<Seq<char>>,
    brotli_enabled: bool,
    gzip_enabled: bool,
)
    requires
        !accepts(values, "br"@),
        !accepts(values, "gzip"@),
    ensures
        select_spec(values, brotli_enabled, gzip_enabled) == EncodingChoice::Identity,
{
}

} // verus!
