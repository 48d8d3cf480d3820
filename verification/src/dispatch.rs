use crate::encode::{encode_pgm16, encode_ppm16, encode_ppm8, pgm16_bytes, ppm16_bytes, ppm8_bytes};
use crate::error::AnalyzeError;
use crate::hexline::{checksum_line, hex_line};
use crate::mode::{ExtractionMode, OutputStyle};
use crate::pixel::{normalize, normalized_of, IntegerBuffer, PixelBuffer, SampleData};
use vstd::prelude::*;
use vstd::string::StringExecFns;

verus! {

/// What one engine extraction handed back, as the dispatcher receives it.
pub enum EngineOutput {
    /// A structured analysis record (metadata or file structure).
    Record(rawler::analyze::AnalyzerResult),
    /// The checksum of the raw pixel data.
    Digest(Vec<u8>),
    /// The raw sensor pixels, integer- or floating-point-valued.
    Raw(rawler::RawImage),
    /// An 8-bit three-channel render (preview, thumbnail or full size).
    Rgb8 { width: usize, height: usize, samples: Vec<u8> },
    /// A 16-bit three-channel color-managed render.
    Rgb16 { width: usize, height: usize, samples: Vec<u16> },
}

/// The single value written to the output sink: a line-terminated text
/// block, or a raster byte stream.
pub enum Rendered {
    Text(String),
    Bytes(Vec<u8>),
}

/// The encoding a normalized raw buffer is owed: three channels go to the
/// 16-bit three-channel raster, one channel to the 16-bit one-channel
/// raster.
pub open spec fn raw_encoding(b: IntegerBuffer) -> Seq<u8> {
    if b.cpp == 3 {
        ppm16_bytes(b.width as nat, b.height as nat, b.samples@)
    } else {
        pgm16_bytes(b.width as nat, b.height as nat, b.samples@)
    }
}

/// The bytes are the encoding of some well-formed normalized buffer with
/// the given dimensions and channel count.
pub open spec fn raw_raster_for(p: PixelBuffer, bytes: Seq<u8>) -> bool {
    exists|b: IntegerBuffer|
        b.wf() && b.width == p.width && b.height == p.height && b.cpp == p.cpp && bytes
            == #[trigger] raw_encoding(b)
}

/// The bytes are the encoding of some well-formed normalized buffer.
pub open spec fn is_raw_raster(bytes: Seq<u8>) -> bool {
    exists|b: IntegerBuffer| b.wf() && bytes == #[trigger] raw_encoding(b)
}

/// Which engine output kind each mode calls for.
pub open spec fn output_matches(mode: ExtractionMode, out: EngineOutput) -> bool {
    match mode {
        ExtractionMode::Metadata => out is Record,
        ExtractionMode::FileStructure => out is Record,
        ExtractionMode::RawChecksum => out is Digest,
        ExtractionMode::RawPixels => out is Raw,
        ExtractionMode::PreviewPixels => out is Rgb8,
        ExtractionMode::ThumbnailPixels => out is Rgb8,
        ExtractionMode::FullPixels => out is Rgb8,
        ExtractionMode::RenderedSrgb => out is Rgb16,
    }
}

fn mismatch_error() -> (r: AnalyzeError)
    ensures
        r matches AnalyzeError::InvariantViolation(_),
{
    AnalyzeError::InvariantViolation(
        String::from_str("engine output does not belong to the selected mode"),
    )
}

/// Render a structured record in the selected style, closed by one line
/// break, ready for the output sink.
pub fn render_record(rec: &rawler::analyze::AnalyzerResult, style: OutputStyle) -> (r: Result<
    String,
    AnalyzeError,
>)
    ensures
        r matches Ok(s) ==> s@.len() > 0 && s@.last() == '\n',
        r matches Err(e) ==> e matches AnalyzeError::Serialization(_),
{
    let serialized = match style {
        OutputStyle::Json => crate::engine::record_to_json(rec),
        OutputStyle::Yaml => crate::engine::record_to_yaml(rec),
    };
    match serialized {
        Ok(s) => {
            let line = s.concat("\n");
            proof {
                reveal_strlit("\n");
                assert(line@.last() == '\n');
            }
            Ok(line)
        },
        Err(msg) => Err(AnalyzeError::Serialization(msg)),
    }
}

/// Dump a decoder-provided pixel buffer: validate the buffer invariant,
/// normalize, and encode by channel count.
pub fn dump_raw_buffer(p: PixelBuffer) -> (r: Result<Vec<u8>, AnalyzeError>)
    ensures
        p.wf() && p.data is Integer ==> (r matches Ok(b) && b@ == raw_encoding(normalized_of(p))),
        !p.wf() ==> (r matches Err(e) && e matches AnalyzeError::InvariantViolation(_)),
        p.wf() && p.data is FloatingPoint ==> (r matches Ok(b) ==> raw_raster_for(p, b@)),
        r matches Err(e) ==> (e matches AnalyzeError::InvariantViolation(_) || e matches
            AnalyzeError::Scaling(_)),
{
    if p.width == 0 || p.height == 0 || !(p.cpp == 1 || p.cpp == 3) {
        return Err(
            AnalyzeError::InvariantViolation(
                String::from_str("pixel buffer has an unsupported shape"),
            ),
        );
    }
    let len_ok = match &p.data {
        SampleData::Integer(v) => {
            let vlen = v.len();
            match p.width.checked_mul(p.height) {
                Some(t) => match t.checked_mul(p.cpp) {
                    Some(t3) => t3 == vlen,
                    None => false,
                },
                None => false,
            }
        },
        SampleData::FloatingPoint(_) => true,
    };
    if !len_ok {
        return Err(
            AnalyzeError::InvariantViolation(
                String::from_str("sample count does not match the buffer dimensions"),
            ),
        );
    }
    let ghost p0 = p;
    match normalize(p) {
        Ok(ib) => {
            let ghost ibg = ib;
            let r = if ib.cpp == 3 {
                encode_ppm16(ib.width, ib.height, &ib.samples)
            } else {
                encode_pgm16(ib.width, ib.height, &ib.samples)
            };
            proof {
                if r is Ok {
                    let b = r->Ok_0;
                    assert(b@ == raw_encoding(ibg));
                    assert(ibg.wf() && ibg.width == p0.width && ibg.height == p0.height
                        && ibg.cpp == p0.cpp);
                }
            }
            r
        },
        Err(e) => Err(e),
    }
}

/// Dump the raw sensor pixels as the engine handed them over.
pub fn dump_raw(img: rawler::RawImage) -> (r: Result<Vec<u8>, AnalyzeError>)
    ensures
        r matches Ok(b) ==> is_raw_raster(b@),
        r matches Err(e) ==> (e matches AnalyzeError::InvariantViolation(_) || e matches
            AnalyzeError::Scaling(_)),
{
    let p = crate::engine::buffer_from_engine(img);
    let ghost pg = p;
    let r = dump_raw_buffer(p);
    proof {
        if r is Ok {
            let b = r->Ok_0;
            if pg.wf() && pg.data is Integer {
                assert(b@ == raw_encoding(normalized_of(pg)));
                assert(normalized_of(pg).wf());
                assert(is_raw_raster(b@));
            } else {
                assert(raw_raster_for(pg, b@));
                let w = choose|ib: IntegerBuffer|
                    ib.wf() && ib.width == pg.width && ib.height == pg.height && ib.cpp == pg.cpp
                        && b@ == #[trigger] raw_encoding(ib);
                assert(b@ == raw_encoding(w));
                assert(is_raw_raster(b@));
            }
        }
    }
    r
}

/// The mode dispatcher: route one engine output through the normalizer and
/// the encoder or renderer the mode calls for, into the single value that
/// goes to the output sink.  An output that does not belong to the mode is
/// a defensive invariant failure.
pub fn process(mode: ExtractionMode, style: OutputStyle, out: EngineOutput) -> (r: Result<
    Rendered,
    AnalyzeError,
>)
    ensures
        !output_matches(mode, out) ==> (r matches Err(e) && e matches
            AnalyzeError::InvariantViolation(_)),
        (mode == ExtractionMode::Metadata || mode == ExtractionMode::FileStructure) ==> (out
            matches EngineOutput::Record(_) ==> ((r matches Ok(Rendered::Text(s)) && s@.len() > 0
            && s@.last() == '\n') || (r matches Err(e) && e matches
            AnalyzeError::Serialization(_)))),
        mode == ExtractionMode::RawChecksum ==> (out matches EngineOutput::Digest(d) ==> (r matches
            Ok(Rendered::Text(s)) && s@ == hex_line(d@))),
        mode == ExtractionMode::RawPixels ==> (out matches EngineOutput::Raw(_) ==> ((r matches Ok(
            Rendered::Bytes(b),
        ) && is_raw_raster(b@)) || (r matches Err(e) && (e matches AnalyzeError::InvariantViolation(
            _,
        ) || e matches AnalyzeError::Scaling(_))))),
        (mode == ExtractionMode::PreviewPixels || mode == ExtractionMode::ThumbnailPixels || mode
            == ExtractionMode::FullPixels) ==> (out matches EngineOutput::Rgb8 {
            width,
            height,
            samples,
        } ==> if samples@.len() == width as nat * height as nat * 3 {
            r matches Ok(Rendered::Bytes(b)) && b@ == ppm8_bytes(
                width as nat,
                height as nat,
                samples@,
            )
        } else {
            r matches Err(e) && e matches AnalyzeError::InvariantViolation(_)
        }),
        mode == ExtractionMode::RenderedSrgb ==> (out matches EngineOutput::Rgb16 {
            width,
            height,
            samples,
        } ==> if samples@.len() == width as nat * height as nat * 3 {
            r matches Ok(Rendered::Bytes(b)) && b@ == ppm16_bytes(
                width as nat,
                height as nat,
                samples@,
            )
        } else {
            r matches Err(e) && e matches AnalyzeError::InvariantViolation(_)
        }),
{
    match mode {
        ExtractionMode::Metadata | ExtractionMode::FileStructure => match out {
            EngineOutput::Record(rec) => match render_record(&rec, style) {
                Ok(s) => Ok(Rendered::Text(s)),
                Err(e) => Err(e),
            },
            _ => Err(mismatch_error()),
        },
        ExtractionMode::RawChecksum => match out {
            EngineOutput::Digest(d) => Ok(Rendered::Text(checksum_line(&d))),
            _ => Err(mismatch_error()),
        },
        ExtractionMode::RawPixels => match out {
            EngineOutput::Raw(img) => match dump_raw(img) {
                Ok(b) => Ok(Rendered::Bytes(b)),
                Err(e) => Err(e),
            },
            _ => Err(mismatch_error()),
        },
        ExtractionMode::PreviewPixels | ExtractionMode::ThumbnailPixels
            | ExtractionMode::FullPixels => match out {
            EngineOutput::Rgb8 { width, height, samples } => match encode_ppm8(
                width,
                height,
                &samples,
            ) {
                Ok(b) => Ok(Rendered::Bytes(b)),
                Err(e) => Err(e),
            },
            _ => Err(mismatch_error()),
        },
        ExtractionMode::RenderedSrgb => match out {
            EngineOutput::Rgb16 { width, height, samples } => match encode_ppm16(
                width,
                height,
                &samples,
            ) {
                Ok(b) => Ok(Rendered::Bytes(b)),
                Err(e) => Err(e),
            },
            _ => Err(mismatch_error()),
        },
    }
}

} // verus!
