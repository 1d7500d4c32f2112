//! Speaking state controller and event dispatch: the multiplexer proper.
//!
//! Transport events arrive as a closed set of variants and are consumed
//! through the single exhaustive-match entry point [`VoiceReceive::act`].
//! Every decision — which stream a speaker owns, when a session is created,
//! reset or finalized, what audio a session is fed — is made here over the
//! registry and the session table; the engine calls themselves are handed
//! back as an ordered list of [`EngineAction`] values for the caller to
//! perform, so slow outside work never runs inside the state transition.
//!
//! Both speaking-transition event kinds map onto the same two-state
//! (silent/speaking) semantics, and duplicate or out-of-order delivery is
//! tolerated without double-finalizing: a finalize on a stream without a live
//! session yields no action at all.

use vstd::prelude::*;
use crate::SSRC;
use crate::audio::downmix;
use crate::audio::downmix_spec;
use crate::registry::SpeakerRegistry;
use crate::registry::bind_spec;
use crate::registry::unbind_spec;
use crate::session::Recognizer;
use crate::session::SessionTable;

verus! {

/// Fixed sample rate, in hertz, of the voice transport's decoded audio.
pub const TRANSPORT_SAMPLE_RATE: u32 = 48000;

/// One transport event, as the multiplexer consumes it.
#[derive(Debug, Clone, PartialEq)]
pub enum VoiceEvent {
    /// Explicit speaking-flag update.  It also identifies the speaker behind
    /// a stream, so the binding is inserted before the transition applies; a
    /// flags value of zero means the speaker stopped.
    SpeakingStateChanged { stream: SSRC, speaker: u64, speaking_flags: u32 },
    /// Generic voice-activity update for a stream.
    SpeakingUpdate { stream: SSRC, speaking: bool },
    /// A decoded audio frame: interleaved two-channel 16-bit samples.
    AudioPacket { stream: SSRC, pcm: Vec<i16> },
    /// A speaker left the call.
    Disconnected { speaker: u64 },
}

/// One engine call the caller must perform, in the order returned, after an
/// event was dispatched.
#[derive(Debug, Clone, PartialEq)]
pub enum EngineAction {
    /// Construct the recognizer handle for `stream` at `sample_rate`.
    Create { stream: SSRC, sample_rate: u32 },
    /// Clear the decoder state of the handle for `stream`.
    Reset { stream: SSRC },
    /// Append mono samples to the handle for `stream`.
    Feed { stream: SSRC, mono: Vec<i16> },
    /// Request the final text from the handle for `stream`, destroy the
    /// handle, and publish non-empty text under the identity of `speaker`
    /// (anonymous when `None`).
    Finalize { stream: SSRC, speaker: Option<u64> },
}

/// The session map after a lazy `ensure_session` for `s` at rate `rate`.
pub open spec fn with_session(m: Map<u32, Recognizer>, s: u32, rate: u32) -> Map<u32, Recognizer> {
    if m.contains_key(s) {
        m
    } else {
        m.insert(s, (Recognizer { sample_rate: rate }))
    }
}

/// The speaker a binding map assigns to stream `s`, if any.
pub open spec fn bound_speaker(m: Map<u32, u64>, s: u32) -> Option<u64> {
    if m.contains_key(s) {
        Some(m[s])
    } else {
        None
    }
}

/// The per-connection multiplexer state: the speaker registry and the table
/// of live recognition sessions.
pub struct VoiceReceive {
    registry: SpeakerRegistry,
    sessions: SessionTable,
}

impl VoiceReceive {
    /// The current stream-to-speaker bindings.
    pub closed spec fn bindings(self) -> Map<u32, u64> {
        self.registry.pairs()
    }

    /// The live sessions, keyed by stream identifier.
    pub closed spec fn live(self) -> Map<u32, Recognizer> {
        self.sessions.sessions()
    }

    /// Well-formedness: the registry's two directions agree.
    pub closed spec fn wf(self) -> bool {
        self.registry.inv()
    }

    /// For any stream, the number of live recognition sessions is always
    /// 0 or 1, whatever events were dispatched.
    pub proof fn lemma_at_most_one_session(self, stream: SSRC)
        ensures
            crate::session::live_session_count(self.live(), stream) <= 1,
    {
    }

    pub fn new() -> (r: VoiceReceive)
        ensures
            r.wf(),
            r.bindings() == Map::<u32, u64>::empty(),
            r.live() == Map::<u32, Recognizer>::empty(),
    {
        VoiceReceive { registry: SpeakerRegistry::new(), sessions: SessionTable::new() }
    }

    /// Silent-to-speaking transition for `stream`: make sure a session
    /// exists, then clear its decoder state.  The caller constructs a handle
    /// for a `Create` action before resetting it.
    ///
    /// Policy: the reset discards the engine's internal decoder state *and*
    /// any buffered partial transcript with it; text survives a
    /// speaking-start only once finalized.
    pub fn begin_speaking(&mut self, stream: SSRC) -> (acts: Vec<EngineAction>)
        requires
            old(self).wf(),
        ensures
            final(self).wf(),
            final(self).bindings() == old(self).bindings(),
            final(self).live() == with_session(old(self).live(), stream.0, TRANSPORT_SAMPLE_RATE),
            acts@ == if old(self).live().contains_key(stream.0) {
                seq![(EngineAction::Reset { stream })]
            } else {
                seq![
                    (EngineAction::Create { stream, sample_rate: TRANSPORT_SAMPLE_RATE }),
                    (EngineAction::Reset { stream }),
                ]
            },
    {
        let mut acts: Vec<EngineAction> = Vec::new();
        let created = self.sessions.ensure_session(stream, TRANSPORT_SAMPLE_RATE);
        if created {
            acts.push(EngineAction::Create { stream, sample_rate: TRANSPORT_SAMPLE_RATE });
        }
        let live = self.sessions.reset(stream);
        if live {
            acts.push(EngineAction::Reset { stream });
        }
        proof {
            if old(self).live().contains_key(stream.0) {
                assert(acts@ =~= seq![(EngineAction::Reset { stream })]);
            } else {
                assert(acts@ =~= seq![
                    (EngineAction::Create { stream, sample_rate: TRANSPORT_SAMPLE_RATE }),
                    (EngineAction::Reset { stream }),
                ]);
            }
        }
        acts
    }

    /// Speaking-to-silent transition for `stream`: destroy the session, if
    /// one is live, and hand back the finalize order with the speaker the
    /// registry currently binds to the stream.  Without a live session
    /// nothing happens and no action — in particular no publish — is
    /// produced.
    pub fn finish_speaking(&mut self, stream: SSRC) -> (acts: Vec<EngineAction>)
        requires
            old(self).wf(),
        ensures
            final(self).wf(),
            final(self).bindings() == old(self).bindings(),
            final(self).live() == old(self).live().remove(stream.0),
            acts@ == if old(self).live().contains_key(stream.0) {
                seq![
                    (EngineAction::Finalize {
                        stream,
                        speaker: bound_speaker(old(self).bindings(), stream.0),
                    }),
                ]
            } else {
                Seq::<EngineAction>::empty()
            },
    {
        let mut acts: Vec<EngineAction> = Vec::new();
        match self.sessions.finalize(stream) {
            Some(_rec) => {
                let speaker = self.registry.lookup_by_stream(stream);
                acts.push(EngineAction::Finalize { stream, speaker });
            },
            None => {},
        }
        proof {
            if old(self).live().contains_key(stream.0) {
                assert(acts@ =~= seq![
                    (EngineAction::Finalize {
                        stream,
                        speaker: bound_speaker(old(self).bindings(), stream.0),
                    }),
                ]);
            } else {
                assert(acts@ =~= Seq::<EngineAction>::empty());
            }
        }
        acts
    }

    /// Audio ingest for one frame: downmix the interleaved stereo samples to
    /// mono, make sure `stream` has a session (created lazily at the
    /// transport rate), and hand the mono samples on as a `Feed` order.  This
    /// path is independent of the speaking transitions: audio may arrive
    /// before any speaking-start signal was observed.
    pub fn process_audio(&mut self, stream: SSRC, pcm: Vec<i16>) -> (acts: Vec<EngineAction>)
        requires
            old(self).wf(),
        ensures
            final(self).wf(),
            final(self).bindings() == old(self).bindings(),
            final(self).live() == with_session(old(self).live(), stream.0, TRANSPORT_SAMPLE_RATE),
            ({
                let had = old(self).live().contains_key(stream.0);
                &&& acts@.len() == if had {
                    1int
                } else {
                    2int
                }
                &&& !had ==> acts@[0] == (EngineAction::Create {
                    stream,
                    sample_rate: TRANSPORT_SAMPLE_RATE,
                })
                &&& (acts@.last() matches EngineAction::Feed { stream: fs, mono: fm }
                    && fs == stream && fm@ == downmix_spec(pcm@))
            }),
    {
        let mono = downmix(pcm.as_slice());
        let mut acts: Vec<EngineAction> = Vec::new();
        let created = self.sessions.ensure_session(stream, TRANSPORT_SAMPLE_RATE);
        if created {
            acts.push(EngineAction::Create { stream, sample_rate: TRANSPORT_SAMPLE_RATE });
        }
        acts.push(EngineAction::Feed { stream, mono });
        acts
    }

    /// The single entry point: dispatch one transport event.
    ///
    /// - A speaking-flag update first (re)binds the stream to the reported
    ///   speaker, then applies the transition its flags encode.
    /// - A voice-activity update applies the transition alone.
    /// - An audio frame is downmixed and fed, creating the session lazily.
    /// - A disconnect finalizes the departing speaker's session, if the
    ///   registry binds one, and then removes the binding; for an unbound
    ///   speaker it is a no-op, so a duplicate disconnect does nothing.
    ///
    /// The returned actions are for the caller to perform in order; engine
    /// calls on one stream's handle must stay serialized, calls on distinct
    /// handles are independent.
    pub fn act(&mut self, event: VoiceEvent) -> (acts: Vec<EngineAction>)
        requires
            old(self).wf(),
        ensures
            final(self).wf(),
            (event matches VoiceEvent::SpeakingStateChanged { stream, speaker, speaking_flags }
                ==> {
                let b1 = bind_spec(old(self).bindings(), stream.0, speaker);
                &&& final(self).bindings() == b1
                &&& if speaking_flags == 0 {
                    &&& final(self).live() == old(self).live().remove(stream.0)
                    &&& acts@ == if old(self).live().contains_key(stream.0) {
                        seq![(EngineAction::Finalize { stream, speaker: Some(speaker) })]
                    } else {
                        Seq::<EngineAction>::empty()
                    }
                } else {
                    &&& final(self).live() == with_session(
                        old(self).live(),
                        stream.0,
                        TRANSPORT_SAMPLE_RATE,
                    )
                    &&& acts@ == if old(self).live().contains_key(stream.0) {
                        seq![(EngineAction::Reset { stream })]
                    } else {
                        seq![
                            (EngineAction::Create { stream, sample_rate: TRANSPORT_SAMPLE_RATE }),
                            (EngineAction::Reset { stream }),
                        ]
                    }
                }
            }),
            (event matches VoiceEvent::SpeakingUpdate { stream, speaking } ==> {
                &&& final(self).bindings() == old(self).bindings()
                &&& if speaking {
                    &&& final(self).live() == with_session(
                        old(self).live(),
                        stream.0,
                        TRANSPORT_SAMPLE_RATE,
                    )
                    &&& acts@ == if old(self).live().contains_key(stream.0) {
                        seq![(EngineAction::Reset { stream })]
                    } else {
                        seq![
                            (EngineAction::Create { stream, sample_rate: TRANSPORT_SAMPLE_RATE }),
                            (EngineAction::Reset { stream }),
                        ]
                    }
                } else {
                    &&& final(self).live() == old(self).live().remove(stream.0)
                    &&& acts@ == if old(self).live().contains_key(stream.0) {
                        seq![
                            (EngineAction::Finalize {
                                stream,
                                speaker: bound_speaker(old(self).bindings(), stream.0),
                            }),
                        ]
                    } else {
                        Seq::<EngineAction>::empty()
                    }
                }
            }),
            (event matches VoiceEvent::AudioPacket { stream, pcm } ==> {
                let had = old(self).live().contains_key(stream.0);
                &&& final(self).bindings() == old(self).bindings()
                &&& final(self).live() == with_session(
                    old(self).live(),
                    stream.0,
                    TRANSPORT_SAMPLE_RATE,
                )
                &&& acts@.len() == if had {
                    1int
                } else {
                    2int
                }
                &&& !had ==> acts@[0] == (EngineAction::Create {
                    stream,
                    sample_rate: TRANSPORT_SAMPLE_RATE,
                })
                &&& (acts@.last() matches EngineAction::Feed { stream: fs, mono: fm }
                    && fs == stream && fm@ == downmix_spec(pcm@))
            }),
            (event matches VoiceEvent::Disconnected { speaker } ==> {
                &&& final(self).bindings() == unbind_spec(old(self).bindings(), speaker)
                &&& (forall|s: u32|
                    old(self).bindings().contains_key(s) ==> #[trigger] old(self).bindings()[s]
                        != speaker) ==> final(self).live() == old(self).live() && acts@
                    == Seq::<EngineAction>::empty()
                &&& (forall|s: u32|
                    old(self).bindings().contains_key(s) && #[trigger] old(self).bindings()[s]
                        == speaker ==> {
                        &&& final(self).live() == old(self).live().remove(s)
                        &&& acts@ == if old(self).live().contains_key(s) {
                            seq![
                                (EngineAction::Finalize { stream: SSRC(s), speaker: Some(speaker) }),
                            ]
                        } else {
                            Seq::<EngineAction>::empty()
                        }
                    })
            }),
    {
        match event {
            VoiceEvent::SpeakingStateChanged { stream, speaker, speaking_flags } => {
                self.registry.bind(stream, speaker);
                if speaking_flags == 0 {
                    self.finish_speaking(stream)
                } else {
                    self.begin_speaking(stream)
                }
            },
            VoiceEvent::SpeakingUpdate { stream, speaking } => {
                if speaking {
                    self.begin_speaking(stream)
                } else {
                    self.finish_speaking(stream)
                }
            },
            VoiceEvent::AudioPacket { stream, pcm } => self.process_audio(stream, pcm),
            VoiceEvent::Disconnected { speaker } => {
                proof {
                    self.registry.lemma_bijective();
                }
                let acts: Vec<EngineAction> = match self.registry.lookup_by_speaker(speaker) {
                    Some(stream) => {
                        let finalize_acts = self.finish_speaking(stream);
                        self.registry.unbind_by_speaker(speaker);
                        finalize_acts
                    },
                    None => Vec::new(),
                };
                proof {
                    assert(self.registry.pairs() =~= unbind_spec(old(self).bindings(), speaker));
                }
                acts
            },
        }
    }
}

} // verus!
