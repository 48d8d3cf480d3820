use crate::error::AnalyzeError;
use vstd::prelude::*;
use vstd::string::StringExecFns;

verus! {

/// Floating-point samples as held by the decoding engine.  The engine's
/// image is kept whole because its scaling transform needs the image's
/// black and white levels; the payload is opaque to verification.
pub struct FloatSamples {
    pub raw: rawler::RawImage,
}

/// The sample payload of a decoder-provided pixel buffer.
pub enum SampleData {
    /// Unsigned 16-bit samples, ready for encoding.
    Integer(Vec<u16>),
    /// Engine-held floating-point samples; normalization converts them.
    FloatingPoint(FloatSamples),
}

/// A decoder-provided pixel buffer: dimensions, channel count, and the flat
/// row-major sample payload.
pub struct PixelBuffer {
    pub width: usize,
    pub height: usize,
    pub cpp: usize,
    pub data: SampleData,
}

/// A normalized pixel buffer: dimensions, channel count, and flat unsigned
/// 16-bit samples.  The type makes floating-point payloads unrepresentable.
pub struct IntegerBuffer {
    pub width: usize,
    pub height: usize,
    pub cpp: usize,
    pub samples: Vec<u16>,
}

impl IntegerBuffer {
    /// Well-formed: positive dimensions, a channel count the encoders
    /// support, and exactly one sample per channel per pixel.
    pub open spec fn wf(self) -> bool {
        &&& self.width > 0
        &&& self.height > 0
        &&& (self.cpp == 1 || self.cpp == 3)
        &&& self.samples@.len() == self.width as nat * self.height as nat * self.cpp as nat
    }
}

impl PixelBuffer {
    /// The dimension part of the buffer invariant.
    pub open spec fn shape_ok(self) -> bool {
        &&& self.width > 0
        &&& self.height > 0
        &&& (self.cpp == 1 || self.cpp == 3)
    }

    /// Well-formed: the shape holds, and integer-tagged samples match the
    /// declared dimensions.  Nothing is claimed of engine-held
    /// floating-point samples; the normalizer counts them as they arrive.
    pub open spec fn wf(self) -> bool {
        &&& self.shape_ok()
        &&& match self.data {
            SampleData::Integer(v) => v@.len() == self.width as nat * self.height as nat
                * self.cpp as nat,
            SampleData::FloatingPoint(_) => true,
        }
    }
}

/// What normalization returns for an integer-tagged buffer: the same
/// dimensions and channel count, with the samples passed through unchanged.
pub open spec fn normalized_of(p: PixelBuffer) -> IntegerBuffer
    recommends
        p.data is Integer,
{
    IntegerBuffer {
        width: p.width,
        height: p.height,
        cpp: p.cpp,
        samples: match p.data {
            SampleData::Integer(v) => v,
            SampleData::FloatingPoint(_) => arbitrary(),
        },
    }
}

/// A normalized buffer seen again as an integer-tagged pixel buffer.
pub open spec fn spec_as_pixel_buffer(b: IntegerBuffer) -> PixelBuffer {
    PixelBuffer { width: b.width, height: b.height, cpp: b.cpp, data: SampleData::Integer(b.samples) }
}

impl IntegerBuffer {
    /// Re-wrap a normalized buffer as an integer-tagged pixel buffer.
    pub fn into_pixel_buffer(self) -> (r: PixelBuffer)
        ensures
            r == spec_as_pixel_buffer(self),
    {
        PixelBuffer {
            width: self.width,
            height: self.height,
            cpp: self.cpp,
            data: SampleData::Integer(self.samples),
        }
    }
}

/// Normalize a decoder-provided buffer into an integer sample buffer.  An
/// integer-tagged buffer passes through unchanged; floating-point samples go
/// through the engine's scaling transform and come back as one 16-bit sample
/// each.  A scaling failure, or an engine result whose sample count does not
/// match the buffer's dimensions, is a scaling error.
pub fn normalize(p: PixelBuffer) -> (r: Result<IntegerBuffer, AnalyzeError>)
    requires
        p.wf(),
    ensures
        p.data is Integer ==> r == Ok::<IntegerBuffer, AnalyzeError>(normalized_of(p)),
        r matches Ok(b) ==> b.wf() && b.width == p.width && b.height == p.height && b.cpp == p.cpp,
        r matches Err(e) ==> p.data is FloatingPoint && e matches AnalyzeError::Scaling(_),
{
    let width = p.width;
    let height = p.height;
    let cpp = p.cpp;
    match p.data {
        SampleData::Integer(samples) => Ok(IntegerBuffer { width, height, cpp, samples }),
        SampleData::FloatingPoint(mut f) => match crate::engine::engine_apply_scaling(&mut f) {
            Ok(()) => match crate::engine::engine_take_integer(f) {
                Ok(samples) => {
                    let count_ok = match width.checked_mul(height) {
                        Some(t) => match t.checked_mul(cpp) {
                            Some(t3) => t3 == samples.len(),
                            None => false,
                        },
                        None => false,
                    };
                    if count_ok {
                        Ok(IntegerBuffer { width, height, cpp, samples })
                    } else {
                        Err(
                            AnalyzeError::Scaling(
                                String::from_str(
                                    "scaled sample count does not match the buffer dimensions",
                                ),
                            ),
                        )
                    }
                },
                Err(msg) => Err(AnalyzeError::Scaling(msg)),
            },
            Err(msg) => Err(AnalyzeError::Scaling(msg)),
        },
    }
}

/// Law: normalization is idempotent.  An integer-tagged buffer normalizes to
/// itself, so re-wrapping the result and normalizing again yields the same
/// buffer as normalizing once.
pub proof fn lemma_normalize_idempotent(p: PixelBuffer)
    requires
        p.wf(),
        p.data is Integer,
    ensures
        normalized_of(spec_as_pixel_buffer(normalized_of(p))) == normalized_of(p),
        spec_as_pixel_buffer(normalized_of(p)).wf(),
{
}

} // verus!
