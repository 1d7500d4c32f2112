//! The one-shot attachment path: transcribing a previously recorded audio
//! attachment.
//!
//! This path shares the recognition-session contract — one session is
//! created, fed once, asked for its final text and discarded — but its
//! container demuxing and sample scaling are outside work.  What is decided
//! here is the typed rejection of unusable input, before any session is
//! created and with no state mutated.

use vstd::prelude::*;

verus! {

/// Why a one-shot transcription request was rejected.
#[derive(Debug, Clone, Copy, PartialEq, Eq, Structural)]
pub enum CaptionError {
    /// The message did not carry exactly one attachment.
    AttachmentCount,
    /// The attachment's container or codec could not be decoded.
    UnsupportedFormat,
}

/// Accept a one-shot request only when the message carries exactly one
/// attachment; anything else is rejected before a session exists.
pub fn validate_attachment_count(attachment_count: usize) -> (r: Result<(), CaptionError>)
    ensures
        r is Ok <==> attachment_count == 1,
        attachment_count != 1 ==> r == Err::<(), CaptionError>(CaptionError::AttachmentCount),
{
    if attachment_count == 1 {
        Ok(())
    } else {
        Err(CaptionError::AttachmentCount)
    }
}

} // verus!
