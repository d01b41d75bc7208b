use vstd::prelude::*;
use std::io::Read;

verus! {

/// The brotli encoding-mode hint, chosen from the response's top-level media
/// type: text-optimized, font-optimized, or generic.
#[derive(Clone, Copy, PartialEq, Eq, Structural, Debug)]
pub enum BrotliMode {
    Generic,
    Text,
    Font,
}

/// The bytes the brotli encoder produces for the given input bytes and mode
/// hint, at quality 2 with a 4 KiB internal buffer.
pub uninterp spec fn brotli_of(data: Seq<u8>, mode: BrotliMode) -> Seq<u8>;

/// The bytes the gzip encoder produces for the given input bytes, at the
/// codec's default compression level.
pub uninterp spec fn gzip_of(data: Seq<u8>) -> Seq<u8>;

/// Relies on brotli::CompressorReader::with_params: with the parameters fixed
/// here (quality 2, a 4 KiB buffer, the given mode hint), the compressed
/// stream is a function of the input bytes and the mode alone. Reading from
/// an in-memory slice cannot fail, and the encoder accepts these parameters,
/// so the read never errors.
#[verifier::external_body]
pub(crate) fn brotli_compress(data: &Vec<u8>, mode: BrotliMode) -> (r: Vec<u8>)
    ensures
        r@ == brotli_of(data@, mode),
{
    let mut params = brotli::enc::BrotliEncoderInitParams();
    params.quality = 2;
    params.mode = match mode {
        BrotliMode::Generic => {
            brotli::enc::backward_references::BrotliEncoderMode::BROTLI_MODE_GENERIC
        },
        BrotliMode::Text => brotli::enc::backward_references::BrotliEncoderMode::BROTLI_MODE_TEXT,
        BrotliMode::Font => brotli::enc::backward_references::BrotliEncoderMode::BROTLI_MODE_FONT,
    };
    let mut encoder = brotli::CompressorReader::with_params(data.as_slice(), 4096, &params);
    let mut out: Vec<u8> = Vec::new();
    encoder.read_to_end(&mut out).expect("encoding from a slice does not fail");
    out
}

/// Relies on flate2::read::GzEncoder at the default compression level: the
/// produced stream is a function of the input bytes alone (the header's
/// timestamp and operating-system fields are fixed defaults). Read errors
/// only come from the inner reader, and reading from a slice cannot fail.
#[verifier::external_body]
pub(crate) fn gzip_compress(data: &Vec<u8>) -> (r: Vec<u8>)
    ensures
        r@ == gzip_of(data@),
{
    let mut encoder = flate2::read::GzEncoder::new(data.as_slice(), flate2::Compression::default());
    let mut out: Vec<u8> = Vec::new();
    encoder.read_to_end(&mut out).expect("encoding from a slice does not fail");
    out
}

} // verus!
