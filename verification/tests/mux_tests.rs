use caption_mux::SSRC;
use caption_mux::mux::{EngineAction, VoiceEvent, VoiceReceive, TRANSPORT_SAMPLE_RATE};
use caption_mux::publish::{compose_publish, SimpleResult};
use caption_mux::session::{Recognizer, SessionTable};

const SPEAKER_A: u64 = 2001;

fn count_finalizes(acts: &[EngineAction]) -> usize {
    acts.iter()
        .filter(|a| matches!(a, EngineAction::Finalize { .. }))
        .count()
}

#[test]
fn audio_packet_creates_session_and_feeds_downmixed_mono() {
    // An audio packet for a stream with no prior session creates one at the
    // fixed transport rate and feeds the downmixed samples.
    let mut mux = VoiceReceive::new();
    let acts = mux.act(VoiceEvent::AudioPacket { stream: SSRC(42), pcm: vec![100, -100, 50, -50] });
    assert_eq!(
        acts,
        vec![
            EngineAction::Create { stream: SSRC(42), sample_rate: TRANSPORT_SAMPLE_RATE },
            EngineAction::Feed { stream: SSRC(42), mono: vec![0, 0] },
        ]
    );
}

#[test]
fn end_to_end_unbound_stream_publishes_anonymously_once() {
    // AudioPacket{stream=42, pcm=[100,-100,50,-50]} with no prior session,
    // then an end-speaking signal: the session is finalized exactly once, and
    // text "hello" from an unbound stream goes out under the anonymous
    // fallback identity.
    let mut mux = VoiceReceive::new();
    mux.act(VoiceEvent::AudioPacket { stream: SSRC(42), pcm: vec![100, -100, 50, -50] });
    let acts = mux.act(VoiceEvent::SpeakingUpdate { stream: SSRC(42), speaking: false });
    assert_eq!(acts, vec![EngineAction::Finalize { stream: SSRC(42), speaker: None }]);
    assert_eq!(count_finalizes(&acts), 1);

    let transcript = compose_publish(SimpleResult { text: "hello".to_string() }, None).unwrap();
    assert_eq!(transcript.text, "hello");
    assert_eq!(transcript.display_name, "Unknown user");
    assert_eq!(transcript.avatar_url, "");
}

#[test]
fn finalize_without_session_is_a_no_op() {
    // An end-speaking signal for a stream with no session yields no engine
    // action at all, so nothing can reach the publisher.
    let mut mux = VoiceReceive::new();
    let acts = mux.act(VoiceEvent::SpeakingUpdate { stream: SSRC(9), speaking: false });
    assert_eq!(acts, Vec::new());
}

#[test]
fn duplicate_end_speaking_does_not_double_finalize() {
    let mut mux = VoiceReceive::new();
    mux.act(VoiceEvent::SpeakingUpdate { stream: SSRC(3), speaking: true });
    let first = mux.act(VoiceEvent::SpeakingUpdate { stream: SSRC(3), speaking: false });
    let second = mux.act(VoiceEvent::SpeakingUpdate { stream: SSRC(3), speaking: false });
    assert_eq!(count_finalizes(&first), 1);
    assert_eq!(count_finalizes(&second), 0);
}

#[test]
fn begin_speaking_does_not_create_a_second_session() {
    // A second speaking-start for the same stream resets the existing
    // session in place instead of creating another one.
    let mut mux = VoiceReceive::new();
    let first = mux.act(VoiceEvent::SpeakingUpdate { stream: SSRC(8), speaking: true });
    assert_eq!(
        first,
        vec![
            EngineAction::Create { stream: SSRC(8), sample_rate: TRANSPORT_SAMPLE_RATE },
            EngineAction::Reset { stream: SSRC(8) },
        ]
    );
    let again = mux.act(VoiceEvent::SpeakingUpdate { stream: SSRC(8), speaking: true });
    assert_eq!(again, vec![EngineAction::Reset { stream: SSRC(8) }]);
}

#[test]
fn speaking_flags_update_binds_then_transitions() {
    // A flag update identifies the speaker: the binding is inserted first,
    // so the finalize that a zero flags value triggers already knows it.
    let mut mux = VoiceReceive::new();
    mux.act(VoiceEvent::SpeakingStateChanged {
        stream: SSRC(7),
        speaker: SPEAKER_A,
        speaking_flags: 1,
    });
    let acts = mux.act(VoiceEvent::SpeakingStateChanged {
        stream: SSRC(7),
        speaker: SPEAKER_A,
        speaking_flags: 0,
    });
    assert_eq!(
        acts,
        vec![EngineAction::Finalize { stream: SSRC(7), speaker: Some(SPEAKER_A) }]
    );
}

#[test]
fn disconnect_finalizes_bound_session_and_unbinds() {
    // Speaker A is bound to stream 7 with a live session; a disconnect
    // finalizes stream 7's session and removes the binding, and a second
    // identical disconnect is a no-op.
    let mut mux = VoiceReceive::new();
    mux.act(VoiceEvent::SpeakingStateChanged {
        stream: SSRC(7),
        speaker: SPEAKER_A,
        speaking_flags: 1,
    });
    let acts = mux.act(VoiceEvent::Disconnected { speaker: SPEAKER_A });
    assert_eq!(
        acts,
        vec![EngineAction::Finalize { stream: SSRC(7), speaker: Some(SPEAKER_A) }]
    );
    let again = mux.act(VoiceEvent::Disconnected { speaker: SPEAKER_A });
    assert_eq!(again, Vec::new());
}

#[test]
fn disconnect_of_speaker_without_stream_is_a_no_op() {
    let mut mux = VoiceReceive::new();
    let acts = mux.act(VoiceEvent::Disconnected { speaker: SPEAKER_A });
    assert_eq!(acts, Vec::new());
}

#[test]
fn session_table_reset_and_finalize() {
    let mut table = SessionTable::new();
    assert!(!table.has_session(SSRC(1)));
    // reset with no session: a no-op that reports no live session
    assert!(!table.reset(SSRC(1)));
    assert!(table.ensure_session(SSRC(1), TRANSPORT_SAMPLE_RATE));
    // a second ensure does not create a second session
    assert!(!table.ensure_session(SSRC(1), TRANSPORT_SAMPLE_RATE));
    // reset keeps the session in place
    assert!(table.reset(SSRC(1)));
    assert!(table.has_session(SSRC(1)));
    // finalize destroys it and hands the record back
    assert_eq!(table.finalize(SSRC(1)), Some(Recognizer { sample_rate: TRANSPORT_SAMPLE_RATE }));
    // finalize on a stream with no session returns nothing
    assert_eq!(table.finalize(SSRC(1)), None);
}

#[test]
fn first_creation_fixes_the_session_rate() {
    let mut table = SessionTable::new();
    assert!(table.ensure_session(SSRC(4), 16000));
    assert!(!table.ensure_session(SSRC(4), 8000));
    assert_eq!(table.finalize(SSRC(4)), Some(Recognizer { sample_rate: 16000 }));
}
