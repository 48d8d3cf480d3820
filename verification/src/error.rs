use vstd::prelude::*;
use vstd::string::StringExecFns;

verus! {

/// Failure taxonomy of the inspection pipeline.  No failure is recovered
/// locally: each one aborts the invocation and is surfaced to the caller
/// unchanged in kind, carrying a description of the originating cause.
#[derive(Debug, Clone, PartialEq, Eq)]
pub enum AnalyzeError {
    /// The decoding engine could not read or decode the input file.
    Decode(String),
    /// The normalization step could not produce a valid integer buffer.
    Scaling(String),
    /// The structured record could not be rendered in the requested style.
    Serialization(String),
    /// The output sink could not be written or flushed.
    Io(String),
    /// An extraction yielded a buffer that breaks the pixel-buffer invariant,
    /// such as a channel count the encoders do not support.  Defensive:
    /// unreachable in correct operation.
    InvariantViolation(String),
    /// The engine produced an output layout this tool does not support.
    Unsupported(String),
}

impl AnalyzeError {
    /// The failure as it goes to the error stream: its kind, then the
    /// originating cause.
    pub open spec fn spec_describe(self) -> Seq<char> {
        match self {
            AnalyzeError::Decode(m) => "decode failure: "@ + m@,
            AnalyzeError::Scaling(m) => "scaling failure: "@ + m@,
            AnalyzeError::Serialization(m) => "serialization failure: "@ + m@,
            AnalyzeError::Io(m) => "output failure: "@ + m@,
            AnalyzeError::InvariantViolation(m) => "internal invariant violation: "@ + m@,
            AnalyzeError::Unsupported(m) => "unsupported configuration: "@ + m@,
        }
    }

    /// Render the failure for the error stream.
    pub fn describe(&self) -> (r: String)
        ensures
            r@ == self.spec_describe(),
    {
        match self {
            AnalyzeError::Decode(m) => String::from_str("decode failure: ").concat(m.as_str()),
            AnalyzeError::Scaling(m) => String::from_str("scaling failure: ").concat(m.as_str()),
            AnalyzeError::Serialization(m) => String::from_str("serialization failure: ").concat(
                m.as_str(),
            ),
            AnalyzeError::Io(m) => String::from_str("output failure: ").concat(m.as_str()),
            AnalyzeError::InvariantViolation(m) => String::from_str(
                "internal invariant violation: ",
            ).concat(m.as_str()),
            AnalyzeError::Unsupported(m) => String::from_str("unsupported configuration: ").concat(
                m.as_str(),
            ),
        }
    }
}

} // verus!
