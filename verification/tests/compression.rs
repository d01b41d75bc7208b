use std::io::Cursor;
use std::io::Read;

use compression::accept::{accepts_encoding, select, EncodingChoice};
use compression::decision::{
    compress_automatic, compress_on_demand, compress_response, CompressionConfig, Response,
};
use compression::media::{should_skip, MediaType};
use compression::text::{split_str, trim_str};

const HELLO: &str = r"This is a message to hello with more than 100 bytes \
        in order to have to read more than one buffer when gzipping. こんにちは!";

fn media(top: &str, sub: &str) -> MediaType {
    MediaType {
        top: top.to_string(),
        sub: sub.to_string(),
    }
}

fn default_config() -> CompressionConfig {
    CompressionConfig {
        exclusions: vec![
            "application/gzip".to_string(),
            "application/zip".to_string(),
            "image/*".to_string(),
            "video/*".to_string(),
            "audio/*".to_string(),
        ],
        brotli_enabled: true,
        gzip_enabled: true,
    }
}

fn tar_exception_config() -> CompressionConfig {
    CompressionConfig {
        exclusions: vec!["application/x-tar".to_string()],
        brotli_enabled: true,
        gzip_enabled: true,
    }
}

fn plain_response(content_type: Option<MediaType>) -> Response {
    Response {
        content_encoding: None,
        content_type,
        body: HELLO.as_bytes().to_vec(),
    }
}

fn accept(value: &str) -> Vec<String> {
    vec![value.to_string()]
}

fn brotli_decompress(body: &[u8]) -> String {
    let mut plain = Cursor::new(Vec::<u8>::new());
    brotli::BrotliDecompress(&mut Cursor::new(body.to_vec()), &mut plain)
        .expect("decompress response");
    String::from_utf8(plain.get_mut().to_vec()).unwrap()
}

fn gzip_decompress(body: &[u8]) -> String {
    let mut s = String::new();
    flate2::read::GzDecoder::new(body)
        .read_to_string(&mut s)
        .expect("decompress response");
    s
}

fn gzip_compressed_hello() -> Vec<u8> {
    let mut encoder =
        flate2::read::GzEncoder::new(HELLO.as_bytes(), flate2::Compression::default());
    let mut encoded = Vec::new();
    encoder.read_to_end(&mut encoded).unwrap();
    encoded
}

#[test]
fn test_prioritizes_brotli() {
    let mut response = plain_response(Some(media("text", "plain")));
    compress_automatic(
        &accept("deflate, gzip, br"),
        &mut response,
        &default_config(),
    );
    assert_eq!(response.content_encoding.as_deref(), Some("br"));
    assert_ne!(response.body, HELLO.as_bytes().to_vec());
    assert_eq!(brotli_decompress(&response.body), String::from(HELLO));
}

#[test]
fn test_br_font() {
    let mut response = plain_response(Some(media("font", "woff")));
    compress_automatic(
        &accept("deflate, gzip, br"),
        &mut response,
        &default_config(),
    );
    assert_eq!(response.content_encoding.as_deref(), Some("br"));
    assert_ne!(response.body, HELLO.as_bytes().to_vec());
    assert_eq!(brotli_decompress(&response.body), String::from(HELLO));
}

#[test]
fn test_fallback_gzip() {
    let mut response = plain_response(Some(media("text", "plain")));
    compress_automatic(&accept("deflate, gzip"), &mut response, &default_config());
    assert_ne!(response.content_encoding.as_deref(), Some("br"));
    assert_eq!(response.content_encoding.as_deref(), Some("gzip"));
    assert_ne!(response.body, HELLO.as_bytes().to_vec());
    assert_eq!(gzip_decompress(&response.body), String::from(HELLO));
}

#[test]
fn test_does_not_recompress() {
    let mut response = Response {
        content_encoding: Some("gzip".to_string()),
        content_type: Some(media("text", "plain")),
        body: gzip_compressed_hello(),
    };
    compress_automatic(
        &accept("deflate, gzip, br"),
        &mut response,
        &default_config(),
    );
    assert_ne!(response.content_encoding.as_deref(), Some("br"));
    assert_eq!(response.content_encoding.as_deref(), Some("gzip"));
    assert_eq!(response.body, gzip_compressed_hello());
    assert_eq!(gzip_decompress(&response.body), String::from(HELLO));
}

#[test]
fn test_does_not_compress_explicit_identity() {
    let mut response = Response {
        content_encoding: Some("identity".to_string()),
        content_type: Some(media("text", "plain")),
        body: HELLO.as_bytes().to_vec(),
    };
    compress_automatic(
        &accept("deflate, gzip, br"),
        &mut response,
        &default_config(),
    );
    assert_eq!(response.content_encoding.as_deref(), Some("identity"));
    assert_eq!(response.body, HELLO.as_bytes().to_vec());
    assert_eq!(
        String::from_utf8(response.body.clone()).unwrap(),
        String::from(HELLO)
    );
}

#[test]
fn test_does_not_compress_image() {
    let mut response = plain_response(Some(media("image", "png")));
    compress_automatic(
        &accept("deflate, gzip, br"),
        &mut response,
        &default_config(),
    );
    assert_eq!(response.content_encoding.as_deref(), None);
    assert_eq!(response.body, HELLO.as_bytes().to_vec());
    assert_eq!(
        String::from_utf8(response.body.clone()).unwrap(),
        String::from(HELLO)
    );
}

#[test]
fn test_ignores_unimplemented_encodings() {
    let mut response = plain_response(Some(media("text", "plain")));
    compress_automatic(&accept("deflate"), &mut response, &default_config());
    assert_eq!(response.content_encoding.as_deref(), None);
    assert_eq!(response.body, HELLO.as_bytes().to_vec());
    assert_eq!(
        String::from_utf8(response.body.clone()).unwrap(),
        String::from(HELLO)
    );
}

#[test]
fn test_respects_identity_only() {
    let mut response = plain_response(Some(media("text", "plain")));
    compress_automatic(&accept("identity"), &mut response, &default_config());
    assert_eq!(response.content_encoding.as_deref(), None);
    assert_eq!(response.body, HELLO.as_bytes().to_vec());
    assert_eq!(
        String::from_utf8(response.body.clone()).unwrap(),
        String::from(HELLO)
    );
}

#[test]
fn test_does_not_compress_custom_exception() {
    let mut response = plain_response(Some(media("application", "x-tar")));
    compress_automatic(
        &accept("deflate, gzip, br"),
        &mut response,
        &tar_exception_config(),
    );
    assert_eq!(response.content_encoding.as_deref(), None);
    assert_eq!(response.body, HELLO.as_bytes().to_vec());
    assert_eq!(
        String::from_utf8(response.body.clone()).unwrap(),
        String::from(HELLO)
    );
}

#[test]
fn test_compress_custom_removed_exception() {
    let mut response = plain_response(Some(media("image", "png")));
    compress_automatic(
        &accept("deflate, gzip, br"),
        &mut response,
        &tar_exception_config(),
    );
    assert_eq!(response.content_encoding.as_deref(), Some("br"));
    assert_ne!(response.body, HELLO.as_bytes().to_vec());
    assert_eq!(brotli_decompress(&response.body), String::from(HELLO));
}

#[test]
fn test_select_prefers_brotli_over_gzip() {
    let choice = select(&accept("deflate, gzip, br"), true, true);
    assert!(matches!(choice, EncodingChoice::Brotli));
}

#[test]
fn test_select_gzip_when_brotli_disabled() {
    let choice = select(&accept("deflate, gzip, br"), false, true);
    assert!(matches!(choice, EncodingChoice::Gzip));
}

#[test]
fn test_select_identity_without_supported_token() {
    assert!(matches!(
        select(&accept("identity"), true, true),
        EncodingChoice::Identity
    ));
    assert!(matches!(
        select(&accept("deflate, zstd"), true, true),
        EncodingChoice::Identity
    ));
    assert!(matches!(
        select(&Vec::new(), true, true),
        EncodingChoice::Identity
    ));
}

#[test]
fn test_token_matching_is_exact() {
    assert!(accepts_encoding(&accept("  br , gzip"), "br"));
    assert!(!accepts_encoding(&accept("GZIP"), "gzip"));
    assert!(!accepts_encoding(&accept("gzip;q=0"), "gzip"));
    assert!(!accepts_encoding(&accept("brr"), "br"));
    assert!(accepts_encoding(
        &vec!["deflate".to_string(), "br".to_string()],
        "br"
    ));
}

#[test]
fn test_exclusion_wildcard() {
    let exclusions = vec!["application/*".to_string()];
    assert!(should_skip(
        &Some(media("application", "x-tar")),
        &exclusions
    ));
    assert!(!should_skip(&Some(media("image", "png")), &exclusions));
}

#[test]
fn test_exclusion_exact_and_malformed() {
    let exclusions = vec!["plain".to_string(), "text/html".to_string()];
    assert!(should_skip(&Some(media("text", "html")), &exclusions));
    assert!(!should_skip(&Some(media("text", "plain")), &exclusions));
    assert!(!should_skip(&None, &exclusions));
}

#[test]
fn test_forced_vs_respectful() {
    let config = tar_exception_config();
    let accept_values = accept("deflate, gzip, br");

    let mut respected = plain_response(Some(media("application", "x-tar")));
    compress_response(&accept_values, &mut respected, true, &config);
    assert_eq!(respected.content_encoding.as_deref(), None);
    assert_eq!(respected.body, HELLO.as_bytes().to_vec());

    let mut forced = plain_response(Some(media("application", "x-tar")));
    compress_on_demand(&accept_values, &mut forced, &config);
    assert_eq!(forced.content_encoding.as_deref(), Some("br"));
    assert_eq!(brotli_decompress(&forced.body), String::from(HELLO));
}

#[test]
fn test_gzip_round_trip_multibyte() {
    let mut response = plain_response(Some(media("text", "plain")));
    assert!(HELLO.as_bytes().len() > 100);
    compress_on_demand(&accept("gzip"), &mut response, &default_config());
    assert_eq!(response.content_encoding.as_deref(), Some("gzip"));
    assert_eq!(gzip_decompress(&response.body).as_bytes(), HELLO.as_bytes());
}

#[test]
fn test_absent_content_type_compresses() {
    let mut response = plain_response(None);
    compress_automatic(
        &accept("deflate, gzip, br"),
        &mut response,
        &default_config(),
    );
    assert_eq!(response.content_encoding.as_deref(), Some("br"));
    assert_eq!(brotli_decompress(&response.body), String::from(HELLO));
}

#[test]
fn test_split_and_trim() {
    let pieces = split_str("deflate, gzip, br", ',');
    assert_eq!(pieces, vec!["deflate".to_string(), " gzip".to_string(), " br".to_string()]);
    assert_eq!(trim_str("  br\t"), "br".to_string());
    assert_eq!(trim_str(""), "".to_string());
    assert_eq!(split_str("", ','), vec!["".to_string()]);
    assert_eq!(split_str("a,,b", ','), vec!["a".to_string(), "".to_string(), "b".to_string()]);
}
