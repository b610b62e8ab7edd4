//! Writing an image to a file through one of the engine's codecs.

use vstd::prelude::*;
use vstd::slice::slice_to_vec;
use vstd::string::StringSliceAdditionalSpecFns;
use crate::error::{engine_result, reply_result, ImageError, ImageErrorKind};
use crate::image::Image;

verus! {

/// The file formats the engine can encode.
#[derive(Debug, Clone, Copy, PartialEq, Eq, Structural)]
pub enum ImageFormat {
    Png,
    Jpeg,
}

/// Progress of a write. In every state but the last the caller performs
/// the named engine call and passes the reply to `step`: success, or the
/// diagnostic of a null sink or a `false` return.
pub enum Writing {
    /// Open a file sink at `path`, which ends with its terminator byte.
    Opening { path: Vec<u8>, format: ImageFormat },
    /// Run the codec for `format` on the image and the open sink.
    Encoding { format: ImageFormat },
    /// Release the sink.
    Closing { outcome: Result<(), ImageError> },
    /// Nothing is left to do, and no sink is held.
    Finished { outcome: Result<(), ImageError> },
}

impl Writing {
    /// The caller holds an open sink in this state.
    pub open spec fn holds_sink(self) -> bool {
        self is Encoding || self is Closing
    }

    /// The state that follows a reply.
    pub open spec fn after(self, reply: Result<(), String>) -> Writing {
        match self {
            Writing::Opening { path, format } => if reply is Ok {
                Writing::Encoding { format }
            } else {
                Writing::Finished { outcome: reply_result(reply) }
            },
            Writing::Encoding { format } => Writing::Closing { outcome: reply_result(reply) },
            Writing::Closing { outcome } => Writing::Finished { outcome },
            Writing::Finished { outcome } => Writing::Finished { outcome },
        }
    }

    /// Takes the engine's reply to the call that the current state names.
    /// A sink that failed to open ends the write at once; whatever the
    /// codec reports, the sink is released before the outcome is final.
    /// The reply to a release carries no information and is ignored, as
    /// is any reply to a finished write.
    pub fn step(self, reply: Result<(), String>) -> (next: Writing)
        ensures
            next == self.after(reply),
    {
        match self {
            Writing::Opening { path: _, format } => match reply {
                Ok(_) => Writing::Encoding { format },
                Err(message) => Writing::Finished {
                    outcome: Err(ImageError::from_dp_error(message)),
                },
            },
            Writing::Encoding { format: _ } => Writing::Closing { outcome: engine_result(reply) },
            Writing::Closing { outcome } => Writing::Finished { outcome },
            Writing::Finished { outcome } => Writing::Finished { outcome },
        }
    }
}

/// A write runs through open, encode and release, in this order, and
/// ends with what the codec reported; if the sink does not open, it ends
/// at once with that failure and holds no sink at any time.
pub proof fn lemma_write_protocol(
    path: Vec<u8>,
    format: ImageFormat,
    opened: Result<(), String>,
    encoded: Result<(), String>,
    released: Result<(), String>,
)
    ensures
        ({
            let start = Writing::Opening { path, format };
            let second = start.after(opened);
            let third = second.after(encoded);
            let last = third.after(released);
            &&& !start.holds_sink()
            &&& opened is Err ==> second == (Writing::Finished { outcome: reply_result(opened) })
            &&& opened is Ok ==> {
                &&& second == (Writing::Encoding { format })
                &&& third == (Writing::Closing { outcome: reply_result(encoded) })
                &&& last == (Writing::Finished { outcome: reply_result(encoded) })
            }
        }),
{
}

/// A sink is never left unreleased: whatever the codec reports, the
/// release comes next, and a write that holds a sink finishes only from
/// the state that releases it. A sink comes to be held only by an open
/// that succeeded.
pub proof fn lemma_sink_released(state: Writing, reply: Result<(), String>)
    ensures
        state is Encoding ==> state.after(reply) is Closing,
        state.holds_sink() && state.after(reply) is Finished ==> state is Closing,
        !state.holds_sink() ==> !state.after(reply).holds_sink() || state is Opening && reply is Ok,
{
}

/// The message of a refused path.
pub open spec fn path_text() -> Seq<char> {
    "nul byte found in provided data"@
}

impl Image {
    /// Starts writing this image to `path` in the given format. A path
    /// with an embedded terminator byte is refused with
    /// `PathEncodingError`, before any sink is asked for.
    pub fn write(&self, path: &str, format: ImageFormat) -> (r: Result<Writing, ImageError>)
        ensures
            match r {
                Ok(state) => {
                    &&& !path.spec_bytes().contains(0u8)
                    &&& state matches Writing::Opening { path: c_path, format: chosen }
                    &&& c_path@ == path.spec_bytes().push(0u8)
                    &&& chosen == format
                },
                Err(e) => {
                    &&& path.spec_bytes().contains(0u8)
                    &&& e.has(ImageErrorKind::PathEncodingError, path_text())
                },
            },
    {
        let bytes: &[u8] = path.as_bytes();
        let mut i: usize = 0;
        while i < bytes.len()
            invariant
                i <= bytes@.len(),
                bytes@ == path.spec_bytes(),
                forall|j: int| 0 <= j < i ==> bytes@[j] != 0u8,
            decreases bytes@.len() - i,
        {
            if bytes[i] == 0 {
                assert(bytes@[i as int] == 0u8 && bytes@.contains(0u8));
                return Err(
                    ImageError::new(
                        ImageErrorKind::PathEncodingError,
                        "nul byte found in provided data",
                    ),
                );
            }
            i += 1;
        }
        let mut c_path: Vec<u8> = slice_to_vec(bytes);
        c_path.push(0);
        Ok(Writing::Opening { path: c_path, format })
    }

    /// Starts writing this image to `path` as PNG.
    pub fn write_png(&self, path: &str) -> (r: Result<Writing, ImageError>)
        ensures
            match r {
                Ok(state) => {
                    &&& !path.spec_bytes().contains(0u8)
                    &&& state matches Writing::Opening { path: c_path, format }
                    &&& c_path@ == path.spec_bytes().push(0u8)
                    &&& format == ImageFormat::Png
                },
                Err(e) => {
                    &&& path.spec_bytes().contains(0u8)
                    &&& e.has(ImageErrorKind::PathEncodingError, path_text())
                },
            },
    {
        self.write(path, ImageFormat::Png)
    }

    /// Starts writing this image to `path` as JPEG.
    pub fn write_jpeg(&self, path: &str) -> (r: Result<Writing, ImageError>)
        ensures
            match r {
                Ok(state) => {
                    &&& !path.spec_bytes().contains(0u8)
                    &&& state matches Writing::Opening { path: c_path, format }
                    &&& c_path@ == path.spec_bytes().push(0u8)
                    &&& format == ImageFormat::Jpeg
                },
                Err(e) => {
                    &&& path.spec_bytes().contains(0u8)
                    &&& e.has(ImageErrorKind::PathEncodingError, path_text())
                },
            },
    {
        self.write(path, ImageFormat::Jpeg)
    }
}

} // verus!
