use crate::pixel::{FloatSamples, PixelBuffer, SampleData};
use vstd::prelude::*;

verus! {

/// The decoding engine's raw image: dimensions, sensor metadata and the
/// decoded sample payload.  Opaque to verification; carried whole because
/// the engine's scaling transform reads its black and white levels.
#[verifier::external_type_specification]
#[verifier::external_body]
pub struct ExRawImage(rawler::RawImage);

/// The decoding engine's structured analysis record (metadata or file
/// structure).  Opaque: this crate only serializes it.
#[verifier::external_type_specification]
#[verifier::external_body]
pub struct ExAnalyzerResult(rawler::analyze::AnalyzerResult);

/// Relies on the public fields of rawler's `RawImage`: the declared width,
/// height and channel count are moved into the buffer, and the payload keeps
/// its integer or floating-point representation.
#[verifier::external_body]
pub(crate) fn buffer_from_engine(img: rawler::RawImage) -> (r: PixelBuffer) {
    let width = img.width;
    let height = img.height;
    let cpp = img.cpp;
    match &img.data {
        rawler::RawImageData::Integer(v) => {
            let samples = v.clone();
            PixelBuffer { width, height, cpp, data: SampleData::Integer(samples) }
        },
        rawler::RawImageData::Float(_) => PixelBuffer {
            width,
            height,
            cpp,
            data: SampleData::FloatingPoint(FloatSamples { raw: img }),
        },
    }
}

/// Relies on rawler's `RawImage::apply_scaling`: it rescales every sample
/// into the normalized range using the image's black and white levels and
/// keeps the sample count.  Scaling is unimplemented upstream for the
/// black-is-zero photometric layout, so that layout becomes an error before
/// the call is made.
#[verifier::external_body]
pub(crate) fn engine_apply_scaling(f: &mut FloatSamples) -> (r: Result<(), String>) {
    if matches!(f.raw.photometric, rawler::rawimage::RawPhotometricInterpretation::BlackIsZero) {
        return Err(String::from("scaling is not implemented for this photometric layout"));
    }
    f.raw.apply_scaling().map_err(|e| e.to_string())
}

/// Relies on rawler's `RawImageData::force_integer`: it replaces the
/// floating-point payload with one unsigned 16-bit sample per sample.  A
/// payload still floating-point afterwards is reported, not invented.
#[verifier::external_body]
pub(crate) fn engine_take_integer(f: FloatSamples) -> (r: Result<Vec<u16>, String>) {
    let mut data = f.raw.data;
    data.force_integer();
    match data {
        rawler::RawImageData::Integer(v) => Ok(v),
        rawler::RawImageData::Float(_) => Err(String::from("conversion left floating-point samples")),
    }
}

/// Relies on `serde_json::to_string_pretty`: renders the record as
/// pretty-printed JSON text, or says why the record cannot be rendered.
#[verifier::external_body]
pub(crate) fn record_to_json(rec: &rawler::analyze::AnalyzerResult) -> (r: Result<String, String>) {
    serde_json::to_string_pretty(rec).map_err(|e| e.to_string())
}

/// Relies on `serde_yaml::to_string`: renders the record as a YAML block
/// document, or says why the record cannot be rendered.
#[verifier::external_body]
pub(crate) fn record_to_yaml(rec: &rawler::analyze::AnalyzerResult) -> (r: Result<String, String>) {
    serde_yaml::to_string(rec).map_err(|e| e.to_string())
}

} // verus!
