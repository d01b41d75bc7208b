use vstd::prelude::*;
use crate::accept::{select, select_spec, EncodingChoice};
use crate::codec::{brotli_compress, brotli_of, gzip_compress, gzip_of, BrotliMode};
use crate::media::{excluded, model_of, should_skip, MediaType, MediaTypeModel};
use crate::text::str_eq;

verus! {

/// The immutable, process-wide compression configuration: the ordered
/// exclusion patterns and the enabled-codec flags. Built once at startup and
/// shared read-only across all decisions.
pub struct CompressionConfig {
    pub exclusions: Vec<String>,
    pub brotli_enabled: bool,
    pub gzip_enabled: bool,
}

/// The response under decision: its Content-Encoding header value, if it
/// already carries one, its declared content type, if any, and its
/// exclusively owned body bytes.
pub struct Response {
    pub content_encoding: Option<String>,
    pub content_type: Option<MediaType>,
    pub body: Vec<u8>,
}

/// The brotli mode hint for a response: text-optimized for a `text`
/// top-level type, font-optimized for `font`, generic otherwise — also when
/// the content type is absent.
pub open spec fn mode_for(content_type: Option<MediaTypeModel>) -> BrotliMode {
    match content_type {
        Option::Some(mt) => if mt.top == "text"@ {
            BrotliMode::Text
        } else if mt.top == "font"@ {
            BrotliMode::Font
        } else {
            BrotliMode::Generic
        },
        Option::None => BrotliMode::Generic,
    }
}

/// Which encoding one decision pass applies to a response: none when the
/// response already carries a Content-Encoding header, none when exclusions
/// are respected and the content type is excluded, and otherwise whatever
/// selection chooses from the accepted tokens and the enabled codecs.
pub open spec fn applied_encoding(
    already: bool,
    content_type: Option<MediaTypeModel>,
    accept_values: Seq<Seq<char>>,
    respect_exclusions: bool,
    exclusions: Seq<Seq<char>>,
    brotli_enabled: bool,
    gzip_enabled: bool,
) -> EncodingChoice {
    if already {
        EncodingChoice::Identity
    } else if respect_exclusions && excluded(content_type, exclusions) {
        EncodingChoice::Identity
    } else {
        select_spec(accept_values, brotli_enabled, gzip_enabled)
    }
}

/// What one decision pass leaves behind: the content type is never touched;
/// a response that was already encoded is left whole; and otherwise the
/// response is unchanged, brotli-encoded, or gzip-encoded exactly as
/// `applied_encoding` says.
pub open spec fn decision_post(
    pre: Response,
    post: Response,
    accept_values: Seq<Seq<char>>,
    respect_exclusions: bool,
    config: CompressionConfig,
) -> bool {
    let choice = applied_encoding(
        pre.content_encoding is Some,
        model_of(&pre.content_type),
        accept_values,
        respect_exclusions,
        config.exclusions.deep_view(),
        config.brotli_enabled,
        config.gzip_enabled,
    );
    &&& post.content_type == pre.content_type
    &&& pre.content_encoding is Some ==> post == pre
    &&& match choice {
        EncodingChoice::Identity => post == pre,
        EncodingChoice::Brotli => {
            &&& post.content_encoding matches Option::Some(e) && e@ == "br"@
            &&& post.body@ == brotli_of(pre.body@, mode_for(model_of(&pre.content_type)))
        },
        EncodingChoice::Gzip => {
            &&& post.content_encoding matches Option::Some(e) && e@ == "gzip"@
            &&& post.body@ == gzip_of(pre.body@)
        },
    }
}

/// Whether the response already carries a Content-Encoding header: such a
/// response is never touched again.
pub fn already_encoded(response: &Response) -> (r: bool)
    ensures
        r == (response.content_encoding is Some),
{
    response.content_encoding.is_some()
}

/// Sets the response's Content-Encoding header to the single chosen token
/// and installs the encoded bytes as the new body, taking ownership of them.
pub fn set_body_and_encoding(response: &mut Response, body: Vec<u8>, encoding: &str)
    ensures
        final(response).content_type == old(response).content_type,
        final(response).content_encoding matches Option::Some(e) && e@ == encoding@,
        final(response).body == body,
{
    response.content_encoding = Option::Some(String::from_str(encoding));
    response.body = body;
}

/// The brotli mode hint for the response's content type.
pub fn mode_hint(content_type: &Option<MediaType>) -> (m: BrotliMode)
    ensures
        m == mode_for(model_of(content_type)),
{
    match content_type {
        Option::Some(mt) => {
            if str_eq(mt.top.as_str(), "text") {
                BrotliMode::Text
            } else if str_eq(mt.top.as_str(), "font") {
                BrotliMode::Font
            } else {
                BrotliMode::Generic
            }
        },
        Option::None => BrotliMode::Generic,
    }
}

/// The decision alone, from plain values: which encoding one pass applies to
/// a response in the given state. Pure, so a host that streams its bodies
/// can make the decision here and perform the wrapping at its edge.
pub fn decide(
    already: bool,
    content_type: &Option<MediaType>,
    accept_values: &Vec<String>,
    respect_exclusions: bool,
    config: &CompressionConfig,
) -> (c: EncodingChoice)
    ensures
        c == applied_encoding(
            already,
            model_of(content_type),
            accept_values.deep_view(),
            respect_exclusions,
            config.exclusions.deep_view(),
            config.brotli_enabled,
            config.gzip_enabled,
        ),
{
    if already {
        return EncodingChoice::Identity;
    }
    if respect_exclusions {
        if should_skip(content_type, &config.exclusions) {
            return EncodingChoice::Identity;
        }
    }
    select(accept_values, config.brotli_enabled, config.gzip_enabled)
}

/// One decision pass over one response, with no retries: stop if the
/// response is already encoded; stop if exclusions are respected and the
/// content type is excluded; otherwise select an encoding from the client's
/// Accept-Encoding header values and the enabled codecs, and, unless the
/// selection is identity, replace the body with the encoded bytes and set
/// the Content-Encoding header.
pub fn compress_response(
    accept_values: &Vec<String>,
    response: &mut Response,
    respect_exclusions: bool,
    config: &CompressionConfig,
)
    ensures
        decision_post(
            *old(response),
            *final(response),
            accept_values.deep_view(),
            respect_exclusions,
            *config,
        ),
{
    let already = already_encoded(response);
    let choice = decide(already, &response.content_type, accept_values, respect_exclusions, config);
    match choice {
        EncodingChoice::Identity => {},
        EncodingChoice::Brotli => {
            let mode = mode_hint(&response.content_type);
            let encoded = brotli_compress(&response.body, mode);
            set_body_and_encoding(response, encoded, "br");
        },
        EncodingChoice::Gzip => {
            let encoded = gzip_compress(&response.body);
            set_body_and_encoding(response, encoded, "gzip");
        },
    }
}

/// The automatic transform: applied to every outgoing response as a
/// post-processing step, honoring the configured exclusions.
pub fn compress_automatic(
    accept_values: &Vec<String>,
    response: &mut Response,
    config: &CompressionConfig,
)
    ensures
        decision_post(*old(response), *final(response), accept_values.deep_view(), true, *config),
{
    compress_response(accept_values, response, true, config);
}

/// The on-demand transform: forces compression of one specific response,
/// ignoring the exclusion policy.
pub fn compress_on_demand(
    accept_values: &Vec<String>,
    response: &mut Response,
    config: &CompressionConfig,
)
    ensures
        decision_post(*old(response), *final(response), accept_values.deep_view(), false, *config),
{
    compress_response(accept_values, response, false, config);
}

/// Law: idempotence. A response that already carries a Content-Encoding
/// header is never encoded again, whatever the client accepts, whatever is
/// excluded, and whichever codecs are enabled; a decision pass that meets
/// `decision_post` leaves such a response — headers and body — unchanged.
pub proof fn lemma_idempotence(
    pre: Response,
    post: Response,
    accept_values: Seq<Seq<char>>,
    respect_exclusions: bool,
    config: CompressionConfig,
)
    requires
        pre.content_encoding is Some,
        decision_post(pre, post, accept_values, respect_exclusions, config),
    ensures
        post == pre,
        applied_encoding(
            true,
            model_of(&pre.content_type),
            accept_values,
            respect_exclusions,
            config.exclusions.deep_view(),
            config.brotli_enabled,
            config.gzip_enabled,
        ) == EncodingChoice::Identity,
{
}

/// Law: forced versus respectful paths. For a content type on the exclusion
/// list and a response not already encoded, the respectful pass applies no
/// encoding, while the forced pass applies exactly what selection chooses —
/// same response, same configuration, opposite outcomes on that flag alone.
pub proof fn lemma_forced_vs_respectful(
    content_type: Option<MediaTypeModel>,
    accept_values: Seq<Seq<char>>,
    exclusions: Seq<Seq<char>>,
    brotli_enabled: bool,
    gzip_enabled: bool,
)
    requires
        excluded(content_type, exclusions),
    ensures
        applied_encoding(
            false,
            content_type,
            accept_values,
            true,
            exclusions,
            brotli_enabled,
            gzip_enabled,
        ) == EncodingChoice::Identity,
        applied_encoding(
            false,
            content_type,
            accept_values,
            false,
            exclusions,
            brotli_enabled,
            gzip_enabled,
        ) == select_spec(accept_values, brotli_enabled, gzip_enabled),
{
}

} // verus!
