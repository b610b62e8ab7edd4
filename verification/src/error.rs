//! Error taxonomy, and how engine failure signals become errors.

use vstd::prelude::*;

verus! {

/// What went wrong, independent of the diagnostic text.
#[derive(Debug, Clone, Copy, PartialEq, Eq, Structural)]
pub enum ImageErrorKind {
    /// A source width or height of zero.
    EmptyImage,
    /// A target box with a width or height of zero.
    EmptyTarget,
    /// Fewer pixel entries than `width * height`.
    InsufficientPixelData,
    /// Two images that must agree in size do not.
    MismatchedDimensions,
    /// A size that the engine's signed 32-bit integers cannot hold.
    DimensionOverflow,
    /// A path with an embedded terminator byte.
    PathEncodingError,
    /// The engine reported a failure; the message is its diagnostic.
    EngineFailure,
}

/// An error kind together with its diagnostic message.
#[derive(Debug)]
pub struct ImageError {
    pub kind: ImageErrorKind,
    pub message: String,
}

impl ImageError {
    /// True when this error has the given kind and message text.
    pub open spec fn has(&self, kind: ImageErrorKind, text: Seq<char>) -> bool {
        self.kind == kind && self.message@ == text
    }

    /// An error of a locally detected kind with a fixed message.
    pub fn new(kind: ImageErrorKind, text: &str) -> (e: Self)
        ensures
            e.has(kind, text@),
    {
        ImageError { kind, message: text.to_owned() }
    }

    /// Wraps the diagnostic that the engine left in its last-error channel.
    /// The message is carried verbatim.
    pub fn from_dp_error(message: String) -> (e: Self)
        ensures
            e == (ImageError { kind: ImageErrorKind::EngineFailure, message }),
    {
        ImageError { kind: ImageErrorKind::EngineFailure, message }
    }
}

/// Turns an engine reply into a result: a value passes through, a failure
/// signal becomes `EngineFailure` with the captured diagnostic.
pub fn engine_result<T>(reply: Result<T, String>) -> (r: Result<T, ImageError>)
    ensures
        r == reply_result(reply),
{
    match reply {
        Ok(value) => Ok(value),
        Err(message) => Err(ImageError::from_dp_error(message)),
    }
}

/// What `engine_result` makes of a reply.
pub open spec fn reply_result<T>(reply: Result<T, String>) -> Result<T, ImageError> {
    match reply {
        Ok(value) => Ok(value),
        Err(message) => Err(ImageError { kind: ImageErrorKind::EngineFailure, message }),
    }
}

} // verus!
