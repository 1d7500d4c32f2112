//! Speaker registry: the bidirectional binding between stream identifiers and
//! speaker identities.
//!
//! At any instant the bindings form a bijection: a stream is bound to at most
//! one speaker and a speaker to at most one stream.  Inserting a binding
//! overwrites any prior entry sharing either half.  The registry is kept as
//! two plain key-to-value maps, one per direction, held consistent by every
//! operation.

use vstd::prelude::*;
use std::collections::HashMap;
use crate::SSRC;

verus! {

broadcast use vstd::std_specs::hash::group_hash_axioms;

/// The bindings after `(s, u)` is inserted with overwrite-on-insert: every
/// prior pair sharing the stream `s` or the speaker `u` is gone, and `s` is
/// bound to `u`.
pub open spec fn bind_spec(m: Map<u32, u64>, s: u32, u: u64) -> Map<u32, u64> {
    Map::new(
        |k: u32| k == s || (m.contains_key(k) && m[k] != u),
        |k: u32| if k == s { u } else { m[k] },
    )
}

/// The bindings after the pair whose speaker is `u`, if any, is removed.
pub open spec fn unbind_spec(m: Map<u32, u64>, u: u64) -> Map<u32, u64> {
    Map::new(|k: u32| m.contains_key(k) && m[k] != u, |k: u32| m[k])
}

/// Bidirectional stream-to-speaker binding table.
pub struct SpeakerRegistry {
    by_stream: HashMap<u32, u64>,
    by_speaker: HashMap<u64, u32>,
}

impl SpeakerRegistry {
    /// The current bindings, as a map from stream identifier to speaker
    /// identifier.
    pub closed spec fn pairs(self) -> Map<u32, u64> {
        self.by_stream@
    }

    /// The two directions index exactly the same pairs.
    pub closed spec fn inv(self) -> bool {
        &&& forall|s: u32| #[trigger] self.by_stream@.contains_key(s)
            ==> self.by_speaker@.contains_key(self.by_stream@[s])
                && self.by_speaker@[self.by_stream@[s]] == s
        &&& forall|u: u64| #[trigger] self.by_speaker@.contains_key(u)
            ==> self.by_stream@.contains_key(self.by_speaker@[u])
                && self.by_stream@[self.by_speaker@[u]] == u
    }

    /// The bindings are a bijection at any instant: no two streams are bound
    /// to the same speaker.
    pub proof fn lemma_bijective(self)
        requires
            self.inv(),
        ensures
            forall|s1: u32, s2: u32|
                self.pairs().contains_key(s1) && self.pairs().contains_key(s2)
                    && #[trigger] self.pairs()[s1] == #[trigger] self.pairs()[s2] ==> s1 == s2,
    {
    }

    pub fn new() -> (r: SpeakerRegistry)
        ensures
            r.inv(),
            r.pairs() == Map::<u32, u64>::empty(),
    {
        SpeakerRegistry { by_stream: HashMap::new(), by_speaker: HashMap::new() }
    }

    /// Insert the binding `(stream, speaker)`, overwriting any existing
    /// binding that shares either the stream or the speaker.
    pub fn bind(&mut self, stream: SSRC, speaker: u64)
        requires
            old(self).inv(),
        ensures
            final(self).inv(),
            final(self).pairs() == bind_spec(old(self).pairs(), stream.0, speaker),
    {
        let ghost m0: Map<u32, u64> = self.by_stream@;
        let stale_stream: Option<u32> = match self.by_speaker.get(&speaker) {
            Some(s) => Some(*s),
            None => None,
        };
        match stale_stream {
            Some(s_old) => {
                self.by_stream.remove(&s_old);
            },
            None => {},
        }
        let stale_speaker: Option<u64> = match self.by_stream.get(&stream.0) {
            Some(u) => Some(*u),
            None => None,
        };
        match stale_speaker {
            Some(u_old) => {
                self.by_speaker.remove(&u_old);
            },
            None => {},
        }
        self.by_stream.insert(stream.0, speaker);
        self.by_speaker.insert(speaker, stream.0);
        proof {
            assert(self.by_stream@ =~= bind_spec(m0, stream.0, speaker));
        }
    }

    /// The speaker bound to `stream`, if any.
    pub fn lookup_by_stream(&self, stream: SSRC) -> (r: Option<u64>)
        ensures
            r == if self.pairs().contains_key(stream.0) {
                Some(self.pairs()[stream.0])
            } else {
                None::<u64>
            },
    {
        match self.by_stream.get(&stream.0) {
            Some(u) => Some(*u),
            None => None,
        }
    }

    /// The stream bound to `speaker`, if any.
    pub fn lookup_by_speaker(&self, speaker: u64) -> (r: Option<SSRC>)
        requires
            self.inv(),
        ensures
            match r {
                Some(s) => self.pairs().contains_key(s.0) && self.pairs()[s.0] == speaker,
                None => forall|s: u32|
                    self.pairs().contains_key(s) ==> #[trigger] self.pairs()[s] != speaker,
            },
    {
        match self.by_speaker.get(&speaker) {
            Some(s) => Some(SSRC(*s)),
            None => None,
        }
    }

    /// Remove the binding whose speaker is `speaker`; a no-op if there is
    /// none.
    pub fn unbind_by_speaker(&mut self, speaker: u64)
        requires
            old(self).inv(),
        ensures
            final(self).inv(),
            final(self).pairs() == unbind_spec(old(self).pairs(), speaker),
    {
        let ghost m0: Map<u32, u64> = self.by_stream@;
        let stale_stream: Option<u32> = match self.by_speaker.get(&speaker) {
            Some(s) => Some(*s),
            None => None,
        };
        match stale_stream {
            Some(s_old) => {
                self.by_stream.remove(&s_old);
                self.by_speaker.remove(&speaker);
            },
            None => {},
        }
        proof {
            assert(self.by_stream@ =~= unbind_spec(m0, speaker));
        }
    }
}

} // verus!
