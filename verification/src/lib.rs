//! Core of a live voice-captioning pipeline.
//!
//! The library is the per-speaker voice session multiplexer: it maps ephemeral
//! transport stream identifiers to speaker identities, keeps at most one
//! recognition session per stream, downmixes raw stereo frames to the mono
//! stream a session consumes, and decides which finalized transcripts are
//! published under which identity.
//!
//! The speech-recognition engine, the voice transport and the publishing sink
//! are external collaborators.  All decisions are made here, as verified code
//! over plain values: an event handed to [`mux::VoiceReceive::act`] yields the
//! exact sequence of engine actions the caller must perform, and
//! [`publish::compose_publish`] decides from the engine's final text whether
//! and under what identity a transcript is published.

use vstd::prelude::*;

pub mod attachment;
pub mod audio;
pub mod config;
pub mod mux;
pub mod publish;
pub mod registry;
pub mod session;

verus! {

/// Transport-assigned identifier of one audio source within a voice
/// connection.  Valid only for the lifetime of the connection; the transport
/// may reassign it to a different speaker over time.
#[derive(Debug, Clone, Copy, PartialEq, Eq, PartialOrd, Ord, Hash, Structural)]
pub struct SSRC(pub u32);

} // verus!
