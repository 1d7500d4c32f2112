//! Recognition session table: at most one live session per stream.
//!
//! A session owns the foreign recognizer handle for one stream; here the
//! handle itself lives with the caller that performs engine calls, and the
//! table records which streams have a live session and at which sample rate.
//! Creation is lazy: no session exists until audio or a speaking-start event
//! arrives first, and the first creation fixes the rate for the session's
//! lifetime.

use vstd::prelude::*;
use std::collections::HashMap;
use crate::SSRC;

verus! {

broadcast use vstd::std_specs::hash::group_hash_axioms;

/// One live recognition session: the record of the engine handle the caller
/// drives for a stream, with the sample rate fixed at creation.
#[derive(Debug, Clone, Copy, PartialEq, Eq, Structural)]
pub struct Recognizer {
    pub sample_rate: u32,
}

impl Recognizer {
    pub fn new(sample_rate: u32) -> (r: Recognizer)
        ensures
            r.sample_rate == sample_rate,
    {
        Recognizer { sample_rate }
    }
}

/// The table of live recognition sessions, keyed by stream identifier.
pub struct SessionTable {
    map: HashMap<u32, Recognizer>,
}

/// How many live sessions a stream owns in a table: its key is either absent
/// or maps to exactly one session.
pub open spec fn live_session_count(sessions: Map<u32, Recognizer>, stream: SSRC) -> nat {
    if sessions.contains_key(stream.0) {
        1nat
    } else {
        0nat
    }
}

/// Finalize is idempotent: destroying the session for a stream and then
/// finalizing the same stream again leaves exactly the table the first
/// finalize left, so a duplicate speaking-stop signal cannot double-publish.
pub proof fn lemma_finalize_idempotent(sessions: Map<u32, Recognizer>, stream: SSRC)
    ensures
        sessions.remove(stream.0).remove(stream.0) == sessions.remove(stream.0),
{
    assert(sessions.remove(stream.0).remove(stream.0) =~= sessions.remove(stream.0));
}

impl SessionTable {
    /// The live sessions, as a map from stream identifier to session record.
    pub closed spec fn sessions(self) -> Map<u32, Recognizer> {
        self.map@
    }

    pub fn new() -> (r: SessionTable)
        ensures
            r.sessions() == Map::<u32, Recognizer>::empty(),
    {
        SessionTable { map: HashMap::new() }
    }

    /// For any stream, the number of live recognition sessions is always
    /// 0 or 1.
    pub proof fn lemma_at_most_one_session(self, stream: SSRC)
        ensures
            live_session_count(self.sessions(), stream) <= 1,
    {
    }

    /// Return whether `stream` has a live session.
    pub fn has_session(&self, stream: SSRC) -> (r: bool)
        ensures
            r == self.sessions().contains_key(stream.0),
    {
        self.map.contains_key(&stream.0)
    }

    /// Make sure `stream` has a session, creating one lazily at
    /// `sample_rate`.  Returns whether a session was created, so that the
    /// caller constructs the matching engine handle exactly then; an existing
    /// session, and its rate, are left untouched.
    pub fn ensure_session(&mut self, stream: SSRC, sample_rate: u32) -> (created: bool)
        ensures
            created == !old(self).sessions().contains_key(stream.0),
            final(self).sessions() == if old(self).sessions().contains_key(stream.0) {
                old(self).sessions()
            } else {
                old(self).sessions().insert(stream.0, (Recognizer { sample_rate }))
            },
    {
        if self.map.contains_key(&stream.0) {
            false
        } else {
            self.map.insert(stream.0, Recognizer::new(sample_rate));
            true
        }
    }

    /// Prepare a decoder reset for `stream`: the table is left unchanged, and
    /// the result says whether a session exists whose engine state the caller
    /// must clear.  A no-op when no session exists.
    pub fn reset(&mut self, stream: SSRC) -> (live: bool)
        ensures
            final(self).sessions() == old(self).sessions(),
            live == old(self).sessions().contains_key(stream.0),
    {
        self.map.contains_key(&stream.0)
    }

    /// Destroy the session for `stream`, handing its record back so that the
    /// caller requests the engine's final result and releases the handle.
    /// Returns nothing, and removes nothing, if no session exists; a second
    /// finalize on the same stream is therefore a safe no-op.
    pub fn finalize(&mut self, stream: SSRC) -> (r: Option<Recognizer>)
        ensures
            final(self).sessions() == old(self).sessions().remove(stream.0),
            match r {
                Some(rec) => old(self).sessions().contains_key(stream.0) && rec == old(
                    self,
                ).sessions()[stream.0],
                None => !old(self).sessions().contains_key(stream.0),
            },
    {
        self.map.remove(&stream.0)
    }
}

} // verus!
