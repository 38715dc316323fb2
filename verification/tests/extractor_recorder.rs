use p3_challenger::{CanObserve, CanSample, HashChallenger};
use p3_keccak::Keccak256Hash;
use shroud::{
    extract_clean_pre_grind_prefix, pre_grind_manifest, verify_pre_grind_bridge,
    verify_profile_matches_backend, StandardBatchOpeningBindings, TranscriptBinding,
    TranscriptStage, DOMAIN_RANDOMIZER_COMMITMENT,
    LivePreGrindExtraction, Plonky3ReplayHarness,
    ReferenceHidingFriPcsProfile,
    extract_pre_grind_slices, longest_byte_equivalent_prefix, new_pinned_recording_byte_challenger,
    verify_byte_equivalence, BackendDriftError, ByteRecorder, ByteTranscriptEvent, HarnessError,
    LiveExtractionError, LiveExtractorShape, PreGrindBridgeError, RecorderSnapshot,
    ReplayMismatch, TranscriptBindingError,
};

fn obs(bytes: &[u8]) -> ByteTranscriptEvent {
    ByteTranscriptEvent::Observed(bytes.to_vec())
}

fn samp(bytes: &[u8]) -> ByteTranscriptEvent {
    ByteTranscriptEvent::Sampled(bytes.to_vec())
}

fn synthetic_pre_grind_events() -> Vec<ByteTranscriptEvent> {
    let mut v = Vec::new();
    for b in [0x01, 0x02, 0x03, 0x04] {
        v.push(obs(&[b]));
    }
    for b in [0x11, 0x12, 0x13, 0x14] {
        v.push(obs(&[b]));
    }
    for b in [0x21, 0x22, 0x23, 0x24] {
        v.push(obs(&[b]));
    }
    v.push(obs(&[0xAA; 32]));
    v.push(samp(&[0xC0; 16]));
    v.push(obs(&[0xBB; 32]));
    v.push(obs(&[0xCC; 32]));
    v.push(samp(&[0xD0; 16]));
    v
}

#[test]
fn extracts_well_formed_events() {
    let events = synthetic_pre_grind_events();
    let ext = extract_pre_grind_slices(&events, &LiveExtractorShape::standard())
        .expect("well-formed events must extract");
    assert_eq!(ext.log_ext_degree, vec![0x01, 0x02, 0x03, 0x04]);
    assert_eq!(ext.log_degree, vec![0x11, 0x12, 0x13, 0x14]);
    assert_eq!(ext.preprocessed_width, vec![0x21, 0x22, 0x23, 0x24]);
    assert_eq!(ext.trace_commit, vec![0xAA; 32]);
    assert_eq!(ext.preprocessed_commit, None);
    assert!(ext.air_public_values.is_empty());
    assert_eq!(ext.quotient_commit, vec![0xBB; 32]);
    assert_eq!(ext.randomizer_commit, vec![0xCC; 32]);
}

#[test]
fn truncated_log_returns_typed_error() {
    let mut events = synthetic_pre_grind_events();
    events.truncate(events.len() - 2);
    let err = extract_pre_grind_slices(&events, &LiveExtractorShape::standard()).unwrap_err();
    assert!(
        matches!(
            err,
            LiveExtractionError::TruncatedLog {
                reading: "randomizer_commit",
                ..
            }
        ),
        "expected TruncatedLog(randomizer_commit), got {err:?}"
    );
    assert_eq!(
        err,
        LiveExtractionError::TruncatedLog {
            reading: "randomizer_commit",
            had: 0,
            expected: 32,
        }
    );
}

#[test]
fn sampled_inside_observe_block_is_rejected() {
    let mut events = synthetic_pre_grind_events();
    events.insert(1, samp(&[0x99; 4]));
    let err = extract_pre_grind_slices(&events, &LiveExtractorShape::standard()).unwrap_err();
    assert_eq!(
        err,
        LiveExtractionError::SampledInObserveBlock {
            reading: "log_ext_degree",
            had: 1,
            expected: 4,
            sampled_len: 4,
        }
    );
}

#[test]
fn missing_alpha_sample_is_rejected() {
    let mut events = synthetic_pre_grind_events();
    events.remove(13);
    let err = extract_pre_grind_slices(&events, &LiveExtractorShape::standard()).unwrap_err();
    assert!(
        matches!(
            err,
            LiveExtractionError::MissingChallengeSample { challenge }
                if challenge == "alpha (batching challenge)"
        ),
        "expected MissingChallengeSample(alpha), got {err:?}"
    );
}

#[test]
fn observed_block_overshoot_is_rejected() {
    let mut events = synthetic_pre_grind_events();
    events[12] = obs(&[0xAA; 33]);
    let err = extract_pre_grind_slices(&events, &LiveExtractorShape::standard()).unwrap_err();
    assert_eq!(
        err,
        LiveExtractionError::ObservedBlockOvershoot {
            reading: "trace_commit",
            had: 0,
            event_len: 33,
            expected: 32,
        }
    );
}

fn metadata_prefix() -> Vec<ByteTranscriptEvent> {
    let mut v = Vec::new();
    for b in [0x01, 0x02, 0x03, 0x04] {
        v.push(obs(&[b]));
    }
    for b in [0x11, 0x12, 0x13, 0x14] {
        v.push(obs(&[b]));
    }
    for b in [0x21, 0x22, 0x23, 0x24] {
        v.push(obs(&[b]));
    }
    v
}

#[test]
fn preprocessed_commit_shape_reads_after_trace_commit() {
    let mut v = metadata_prefix();
    v.push(obs(&[0xAA; 32]));
    v.push(obs(&[0x77; 32]));
    v.push(samp(&[0xC0; 16]));
    v.push(obs(&[0xBB; 32]));
    v.push(obs(&[0xCC; 32]));
    v.push(samp(&[0xD0; 16]));

    let shape = LiveExtractorShape {
        preprocessed_commit_bytes: Some(32),
        ..LiveExtractorShape::standard()
    };
    let ext = extract_pre_grind_slices(&v, &shape).expect("preprocessed-commit shape must extract");
    assert_eq!(ext.trace_commit, vec![0xAA; 32]);
    assert_eq!(ext.preprocessed_commit, Some(vec![0x77; 32]));
    assert!(ext.air_public_values.is_empty());
    assert_eq!(ext.randomizer_commit, vec![0xCC; 32]);
}

#[test]
fn preprocessed_commit_before_trace_commit_maps_to_plonky3_order() {
    let mut v = metadata_prefix();
    v.push(obs(&[0x77; 32]));
    v.push(obs(&[0xAA; 32]));
    v.push(samp(&[0xC0; 16]));
    v.push(obs(&[0xBB; 32]));
    v.push(obs(&[0xCC; 32]));
    v.push(samp(&[0xD0; 16]));

    let shape = LiveExtractorShape {
        preprocessed_commit_bytes: Some(32),
        ..LiveExtractorShape::standard()
    };
    let ext = extract_pre_grind_slices(&v, &shape)
        .expect("byte-count shape is valid; schema order determines labels");
    assert_eq!(ext.trace_commit, vec![0x77; 32]);
    assert_eq!(ext.preprocessed_commit, Some(vec![0xAA; 32]));
}

#[test]
fn air_public_values_shape_consumes_extra_block() {
    let mut v = metadata_prefix();
    v.push(obs(&[0xAA; 32]));
    v.push(obs(&[0x42; 8]));
    v.push(samp(&[0xC0; 16]));
    v.push(obs(&[0xBB; 32]));
    v.push(obs(&[0xCC; 32]));
    v.push(samp(&[0xD0; 16]));

    let shape = LiveExtractorShape {
        air_public_values_bytes: 8,
        ..LiveExtractorShape::standard()
    };
    let ext = extract_pre_grind_slices(&v, &shape).expect("air-public-values shape must extract");
    assert_eq!(ext.air_public_values, vec![0x42; 8]);
}

#[test]
fn missing_zeta_is_rejected() {
    let mut events = synthetic_pre_grind_events();
    events.pop();
    let err = extract_pre_grind_slices(&events, &LiveExtractorShape::standard()).unwrap_err();
    assert!(
        matches!(
            err,
            LiveExtractionError::MissingChallengeSample { challenge }
                if challenge == "zeta (OOD point)"
        ),
        "expected MissingChallengeSample(zeta), got {err:?}"
    );
}

#[test]
fn extraction_error_messages_render_exactly() {
    assert_eq!(
        LiveExtractionError::TruncatedLog { reading: "trace_commit", had: 3, expected: 32 }.message(),
        "[live_extractor] event log exhausted while reading trace_commit (had 3 of 32 bytes)"
    );
    assert_eq!(
        LiveExtractionError::MissingChallengeSample { challenge: "zeta (OOD point)" }.message(),
        "[live_extractor] expected >=1 Sampled events for zeta (OOD point), found none"
    );
    assert_eq!(
        LiveExtractionError::ObservedBlockOvershoot {
            reading: "x",
            had: 1,
            event_len: 5,
            expected: 4
        }
        .message(),
        "[live_extractor] Observed event for x crosses block boundary (had 1 bytes, event adds 5, budget 4)"
    );
    assert!(LiveExtractionError::SampledInObserveBlock {
        reading: "y",
        had: 2,
        expected: 4,
        sampled_len: 7
    }
    .message()
    .starts_with("[live_extractor] Sampled(7) interrupts observe-block for y after 2 of 4 bytes"));
}

#[test]
fn default_shape_is_standard() {
    assert_eq!(LiveExtractorShape::default(), LiveExtractorShape::standard());
}

#[test]
fn longest_byte_equivalent_prefix_empty_is_zero() {
    assert_eq!(longest_byte_equivalent_prefix(&[]), 0);
}

fn bare_challenger() -> HashChallenger<u8, Keccak256Hash, 32> {
    HashChallenger::<u8, Keccak256Hash, 32>::new(Vec::new(), Keccak256Hash)
}

#[test]
fn absorbed_tape_captures_raw_byte_observations() {
    let mut c = new_pinned_recording_byte_challenger();
    let bytes = [0x10u8, 0x20, 0x30, 0x40, 0x50];
    for b in bytes {
        c.observe(b);
    }
    assert_eq!(c.recorder().absorbed_bytes(), bytes.to_vec());
}

#[test]
fn absorbed_tape_captures_array_observations() {
    let mut c = new_pinned_recording_byte_challenger();
    c.observe_slice(&[0xAAu8, 0xBB, 0xCC, 0xDD]);
    assert_eq!(c.recorder().absorbed_bytes(), vec![0xAA, 0xBB, 0xCC, 0xDD]);
}

#[test]
fn sampled_tape_captures_byte_samples() {
    let mut c = new_pinned_recording_byte_challenger();
    for b in [0xAAu8, 0xBB, 0xCC] {
        c.observe(b);
    }
    let s1 = c.sample();
    let s2 = c.sample();
    assert_eq!(c.recorder().sampled_len(), 2);
    assert_eq!(c.recorder().sampled_bytes(), vec![s1, s2]);
}

#[test]
fn recording_is_transparent_to_byte_sampling() {
    let mut recording = new_pinned_recording_byte_challenger();
    let mut control = bare_challenger();
    for b in [0x12u8, 0x34, 0x56, 0x78] {
        recording.observe(b);
        CanObserve::<u8>::observe(&mut control, b);
    }
    for _ in 0..40 {
        let r = recording.sample();
        let c: u8 = CanSample::<u8>::sample(&mut control);
        assert_eq!(r, c);
    }
    recording.observe_slice(&[9, 8, 7]);
    CanObserve::<[u8; 3]>::observe(&mut control, [9, 8, 7]);
    for _ in 0..3 {
        let r = recording.sample();
        let c: u8 = CanSample::<u8>::sample(&mut control);
        assert_eq!(r, c);
    }
}

#[test]
fn first_sample_depends_on_observed_bytes() {
    let mut a = new_pinned_recording_byte_challenger();
    let mut b = new_pinned_recording_byte_challenger();
    a.observe(1);
    b.observe(2);
    let sa: Vec<u8> = (0..8).map(|_| a.sample()).collect();
    let sb: Vec<u8> = (0..8).map(|_| b.sample()).collect();
    assert_ne!(sa, sb);
}

#[test]
fn snapshot_and_absorbed_since_isolate_per_event_bytes() {
    let mut c = new_pinned_recording_byte_challenger();
    c.observe(0x11u8);
    c.observe(0x22u8);
    let after_a = c.recorder().snapshot();
    c.observe(0x33u8);
    c.observe(0x44u8);
    c.observe(0x55u8);
    assert_eq!(c.recorder().absorbed_since(&after_a), vec![0x33, 0x44, 0x55]);
    assert_eq!(c.recorder().absorbed_bytes(), vec![0x11, 0x22, 0x33, 0x44, 0x55]);
}

#[test]
fn snapshot_at_origin_yields_full_tape() {
    let mut c = new_pinned_recording_byte_challenger();
    let origin = c.recorder().snapshot();
    assert_eq!(origin.absorbed_len, 0);
    assert_eq!(origin.sampled_len, 0);
    for b in [0x01u8, 0x02, 0x03] {
        c.observe(b);
    }
    assert_eq!(c.recorder().absorbed_since(&origin), vec![0x01, 0x02, 0x03]);
}

#[test]
fn snapshot_after_all_observations_yields_empty_slice() {
    let mut c = new_pinned_recording_byte_challenger();
    c.observe(0x42u8);
    let after_all = c.recorder().snapshot();
    assert!(c.recorder().absorbed_since(&after_all).is_empty());
}

#[test]
fn snapshot_fields_expose_cursor_positions() {
    let mut c = new_pinned_recording_byte_challenger();
    c.observe(0x01u8);
    c.observe(0x02u8);
    let snap = c.recorder().snapshot();
    assert_eq!(snap, RecorderSnapshot { absorbed_len: 2, sampled_len: 0 });
}

#[test]
fn sampled_since_isolates_later_samples() {
    let mut c = new_pinned_recording_byte_challenger();
    c.observe(7);
    let first = c.sample();
    let snap = c.recorder().snapshot();
    let second = c.sample();
    assert_eq!(c.recorder().sampled_since(&snap), vec![second]);
    assert_eq!(c.recorder().sampled_bytes(), vec![first, second]);
    assert_eq!(c.recorder().absorbed_len(), 1);
}

#[test]
fn events_log_captures_observe_in_order() {
    let mut c = new_pinned_recording_byte_challenger();
    c.observe(0x11u8);
    c.observe_slice(&[0x22u8, 0x33, 0x44]);
    c.observe(0x55u8);
    assert_eq!(
        c.recorder().events(),
        vec![
            ByteTranscriptEvent::Observed(vec![0x11]),
            ByteTranscriptEvent::Observed(vec![0x22, 0x33, 0x44]),
            ByteTranscriptEvent::Observed(vec![0x55]),
        ]
    );
}

#[test]
fn events_log_captures_interleaved_observe_sample() {
    let mut c = new_pinned_recording_byte_challenger();
    c.observe(0xAAu8);
    let _ = c.sample();
    c.observe(0xBBu8);
    let _ = c.sample();
    let events = c.recorder().events();
    assert_eq!(events.len(), 4);
    assert!(matches!(events[0], ByteTranscriptEvent::Observed(_)));
    assert!(matches!(events[1], ByteTranscriptEvent::Sampled(_)));
    assert!(matches!(events[2], ByteTranscriptEvent::Observed(_)));
    assert!(matches!(events[3], ByteTranscriptEvent::Sampled(_)));
}

#[test]
fn events_len_tracks_call_count() {
    let mut c = new_pinned_recording_byte_challenger();
    assert_eq!(c.recorder().events_len(), 0);
    c.observe(0x01u8);
    assert_eq!(c.recorder().events_len(), 1);
    let _ = c.sample();
    assert_eq!(c.recorder().events_len(), 2);
}

#[test]
fn byte_equivalence_holds_for_real_observe_sample_pattern() {
    let mut c = new_pinned_recording_byte_challenger();
    for b in [0x01u8, 0x02, 0x03, 0x04, 0x05] {
        c.observe(b);
    }
    for _ in 0..4 {
        let _ = c.sample();
    }
    for b in [0x10u8, 0x20, 0x30] {
        c.observe(b);
    }
    for _ in 0..2 {
        let _ = c.sample();
    }
    verify_byte_equivalence(&c.recorder().events())
        .expect("byte-equivalent replay must succeed for an honestly-recorded transcript");
}

#[test]
fn byte_equivalence_holds_across_digest_refills() {
    let mut c = new_pinned_recording_byte_challenger();
    c.observe_slice(&[1, 2, 3]);
    for _ in 0..70 {
        let _ = c.sample();
    }
    c.observe(4);
    let _ = c.sample();
    let events = c.recorder().events();
    assert!(verify_byte_equivalence(&events).is_ok());
    assert_eq!(longest_byte_equivalent_prefix(&events), events.len());
}

#[test]
fn byte_equivalence_rejects_mutated_observation() {
    let mut c = new_pinned_recording_byte_challenger();
    for b in [0x01u8, 0x02, 0x03] {
        c.observe(b);
    }
    for _ in 0..3 {
        let _ = c.sample();
    }
    let mut events = c.recorder().events();
    match &mut events[0] {
        ByteTranscriptEvent::Observed(bytes) => bytes[0] ^= 0xFF,
        other => panic!("first event must be Observed, got {other:?}"),
    }
    let err = verify_byte_equivalence(&events).expect_err("mutated observation must cause replay divergence");
    assert!(err.event_index >= 3, "divergence must be at a Sampled event");
}

#[test]
fn byte_equivalence_rejects_mutated_sampled_byte() {
    let mut c = new_pinned_recording_byte_challenger();
    c.observe(0xAAu8);
    let _ = c.sample();
    let _ = c.sample();
    let mut events = c.recorder().events();
    let mutated_index = events
        .iter_mut()
        .enumerate()
        .find_map(|(i, e)| match e {
            ByteTranscriptEvent::Sampled(bytes) => {
                bytes[0] ^= 0xFF;
                Some(i)
            }
            _ => None,
        })
        .expect("must contain a Sampled event");
    let err = verify_byte_equivalence(&events).expect_err("mutated sampled byte must cause replay divergence");
    assert_eq!(err.event_index, mutated_index);
    assert_eq!(err.byte_index, 0);
    assert_eq!(longest_byte_equivalent_prefix(&events), mutated_index);
}

#[test]
fn byte_equivalence_rejects_dropped_observation() {
    let mut c = new_pinned_recording_byte_challenger();
    for b in [0x01u8, 0x02, 0x03] {
        c.observe(b);
    }
    for _ in 0..3 {
        let _ = c.sample();
    }
    let mut events = c.recorder().events();
    events.remove(0);
    assert!(verify_byte_equivalence(&events).is_err());
}

#[test]
fn byte_equivalence_rejects_reordered_observations() {
    let mut c = new_pinned_recording_byte_challenger();
    c.observe(0x01u8);
    c.observe(0x02u8);
    c.observe(0x03u8);
    for _ in 0..2 {
        let _ = c.sample();
    }
    let mut events = c.recorder().events();
    events.swap(0, 2);
    assert!(verify_byte_equivalence(&events).is_err());
}

#[test]
fn replay_mismatch_display_includes_position_and_bytes() {
    let mismatch = ReplayMismatch {
        event_index: 5,
        byte_index: 2,
        expected: 0xAB,
        actual: 0xCD,
    };
    let msg = mismatch.message();
    assert!(msg.contains("event 5"));
    assert!(msg.contains("byte 2"));
    assert!(msg.contains("ab"));
    assert!(msg.contains("cd"));
    assert_eq!(
        msg,
        "byte-equivalence replay diverged at event 5 byte 2: original challenger sampled 0xab, replay sampled 0xcd"
    );
}

#[test]
fn empty_event_log_replays_trivially() {
    assert!(verify_byte_equivalence(&[]).is_ok());
}

#[test]
fn recorder_records_by_hand() {
    let mut r = ByteRecorder::new();
    r.record_observed(&[1, 2]);
    r.record_sampled(9);
    assert_eq!(r.absorbed_bytes(), vec![1, 2]);
    assert_eq!(r.sampled_bytes(), vec![9]);
    assert_eq!(
        r.events(),
        vec![ByteTranscriptEvent::Observed(vec![1, 2]), ByteTranscriptEvent::Sampled(vec![9])]
    );
}

#[test]
fn harness_error_display_identifies_invariant() {
    let prov = HarnessError::Provenance(BackendDriftError::NonHidingInputMmcs);
    assert!(prov.message().starts_with("[provenance]"));

    let manifest = HarnessError::Manifest(TranscriptBindingError::MissingBinding {
        domain_label: "TEST".to_string(),
    });
    assert!(manifest.message().starts_with("[manifest]"));

    let replay = HarnessError::Replay(ReplayMismatch {
        event_index: 0,
        byte_index: 0,
        expected: 0xAA,
        actual: 0xBB,
    });
    assert!(replay.message().starts_with("[replay]"));
}

#[test]
fn harness_and_bridge_errors_convert_and_prefix() {
    let h: HarnessError = BackendDriftError::NonHidingFriMmcs.into();
    assert_eq!(h, HarnessError::Provenance(BackendDriftError::NonHidingFriMmcs));
    let b: PreGrindBridgeError = h.clone().into();
    assert_eq!(
        b.message(),
        format!("[pre_grind_bridge] {}", h.message())
    );
    let e: PreGrindBridgeError =
        LiveExtractionError::MissingChallengeSample { challenge: "alpha" }.into();
    assert!(e.message().starts_with("[pre_grind_bridge] [live_extractor]"));
}

fn recorded_pre_grind_events() -> (Vec<ByteTranscriptEvent>, u8) {
    let mut c = new_pinned_recording_byte_challenger();
    c.observe_slice(&[0x01, 0x02, 0x03, 0x04]);
    c.observe_slice(&[0x11, 0x12, 0x13, 0x14]);
    c.observe_slice(&[0x21, 0x22, 0x23, 0x24]);
    c.observe_slice(&[0xAA; 32]);
    for _ in 0..16 {
        let _ = c.sample();
    }
    c.observe_slice(&[0xBB; 32]);
    c.observe_slice(&[0xCC; 32]);
    for _ in 0..16 {
        let _ = c.sample();
    }
    let events = c.recorder().events();
    let next = c.sample();
    (events, next)
}

#[test]
fn clean_prefix_extraction_of_an_honest_log_reads_every_event() {
    let (events, _) = recorded_pre_grind_events();
    let shape = LiveExtractorShape::standard();
    let (extraction, n) =
        extract_clean_pre_grind_prefix(&events, &shape).expect("honest log must extract");
    assert_eq!(n, events.len());
    assert_eq!(extraction, extract_pre_grind_slices(&events, &shape).unwrap());
    assert_eq!(extraction.trace_commit, vec![0xAA; 32]);
    assert_eq!(extraction.quotient_commit, vec![0xBB; 32]);
    assert_eq!(extraction.randomizer_commit, vec![0xCC; 32]);
}

#[test]
fn clean_prefix_extraction_drops_a_diverging_tail() {
    let (mut events, next) = recorded_pre_grind_events();
    let honest_len = events.len();
    events.push(ByteTranscriptEvent::Sampled(vec![next ^ 0x01]));
    let shape = LiveExtractorShape::standard();
    let (extraction, n) =
        extract_clean_pre_grind_prefix(&events, &shape).expect("clean prefix must extract");
    assert_eq!(n, honest_len);
    assert_eq!(
        extraction,
        extract_pre_grind_slices(&events[..honest_len], &shape).unwrap()
    );
}

#[test]
fn clean_prefix_extraction_reports_extraction_error_of_the_prefix() {
    let (mut events, _) = recorded_pre_grind_events();
    let first_sample = events
        .iter()
        .position(|e| matches!(e, ByteTranscriptEvent::Sampled(_)))
        .expect("log has samples");
    match &mut events[first_sample] {
        ByteTranscriptEvent::Sampled(bytes) => bytes[0] ^= 0xFF,
        ByteTranscriptEvent::Observed(_) => unreachable!(),
    }
    let shape = LiveExtractorShape::standard();
    let err = extract_clean_pre_grind_prefix(&events, &shape).unwrap_err();
    assert_eq!(longest_byte_equivalent_prefix(&events), first_sample);
    assert_eq!(
        err,
        PreGrindBridgeError::Extraction(
            extract_pre_grind_slices(&events[..first_sample], &shape).unwrap_err()
        )
    );
}

#[test]
fn replay_harness_checks_provenance_before_manifest_and_replay() {
    let profile = ReferenceHidingFriPcsProfile::standard();
    let (mut events, _) = recorded_pre_grind_events();
    if let Some(ByteTranscriptEvent::Sampled(bytes)) = events.last_mut() {
        bytes[0] ^= 0xFF;
    }
    let manifest_err = TranscriptBindingError::MissingBinding {
        domain_label: "shroud.randomizer_commitment".to_string(),
    };
    let harness = Plonky3ReplayHarness::new(&profile, Err(manifest_err.clone()), &events);
    let drift = verify_profile_matches_backend(&profile).unwrap_err();
    assert_eq!(harness.verify(), Err(HarnessError::Provenance(drift.clone())));
    assert_eq!(harness.verify_provenance(), Err(HarnessError::Provenance(drift)));
    assert_eq!(harness.verify_manifest(), Err(HarnessError::Manifest(manifest_err)));
    let replay = harness.verify_byte_equivalence().unwrap_err();
    assert_eq!(
        replay,
        HarnessError::Replay(verify_byte_equivalence(&events).unwrap_err())
    );
}

#[test]
fn replay_harness_passes_individual_checks_on_honest_artifacts() {
    let profile = ReferenceHidingFriPcsProfile::standard();
    let (events, _) = recorded_pre_grind_events();
    let harness = Plonky3ReplayHarness::new(&profile, Ok(()), &events);
    assert_eq!(harness.verify_manifest(), Ok(()));
    assert_eq!(harness.verify_byte_equivalence(), Ok(()));
    assert!(matches!(harness.verify(), Err(HarnessError::Provenance(_))));
}

#[test]
fn pre_grind_bridge_reports_extraction_before_harness() {
    let (mut events, _) = recorded_pre_grind_events();
    events.truncate(events.len() - 16);
    let profile = ReferenceHidingFriPcsProfile::standard();
    let shape = LiveExtractorShape::standard();
    let r = verify_pre_grind_bridge(&events, &shape, &profile, |_x: &LivePreGrindExtraction| {
        Err(TranscriptBindingError::MissingBinding {
            domain_label: "unused".to_string(),
        })
    });
    assert_eq!(
        r,
        Err(PreGrindBridgeError::Extraction(
            extract_pre_grind_slices(&events, &shape).unwrap_err()
        ))
    );
}

#[test]
fn pre_grind_bridge_hands_the_live_extraction_to_the_manifest_check() {
    let (events, _) = recorded_pre_grind_events();
    let profile = ReferenceHidingFriPcsProfile::standard();
    let shape = LiveExtractorShape::standard();
    let seen = std::cell::RefCell::new(None);
    let r = verify_pre_grind_bridge(&events, &shape, &profile, |x: &LivePreGrindExtraction| {
        *seen.borrow_mut() = Some(x.clone());
        Ok(())
    });
    let drift = verify_profile_matches_backend(&profile).unwrap_err();
    assert_eq!(
        r,
        Err(PreGrindBridgeError::Harness(HarnessError::Provenance(drift)))
    );
    assert_eq!(
        seen.into_inner(),
        Some(extract_pre_grind_slices(&events, &shape).unwrap())
    );
}

fn labelled(label: &'static str, byte: u8) -> TranscriptBinding {
    TranscriptBinding::new(label, vec![byte])
}

#[test]
fn pre_grind_manifest_composes_standard_schedule_with_live_events() {
    let (events, _) = recorded_pre_grind_events();
    let extraction =
        extract_pre_grind_slices(&events, &LiveExtractorShape::standard()).expect("extracts");
    let standard = StandardBatchOpeningBindings {
        hash_identifier: labelled("H", 1),
        profile: labelled("P", 2),
        basis: labelled("B", 3),
        batch_opening: labelled("BO", 4),
        codeword_embedding: labelled("CE", 5),
        oracle_commitment: labelled("OC", 6),
        opening_projection: labelled("OP", 7),
        quotient_hider: labelled("QH", 8),
        security_level: labelled("SL", 9),
        degree_contract: labelled("DC", 10),
        randomizer_commitment: labelled("STALE", 11),
        public_openings: labelled("PO", 12),
    };
    let manifest = pre_grind_manifest(
        &extraction,
        standard,
        vec![0xE1],
        vec![0xE2],
        vec![0xE3],
        vec![0xE4],
    );
    let view = |stage| -> Vec<(&'static str, Vec<u8>)> {
        manifest
            .required_before(stage)
            .iter()
            .map(|b| (b.domain_label(), b.canonical_bytes().to_vec()))
            .collect()
    };
    let batching = view(TranscriptStage::SampleBatchingChallenge);
    let labels: Vec<&str> = batching.iter().map(|(l, _)| *l).collect();
    assert_eq!(
        labels,
        vec![
            "H", "P", "B", "BO", "CE", "OC", "OP", "QH", "SL",
            "SHROUD_V1_PLONKY3_LOG_EXT_DEGREE",
            "SHROUD_V1_PLONKY3_LOG_DEGREE",
            "SHROUD_V1_PLONKY3_PREPROCESSED_WIDTH",
            "SHROUD_V1_PLONKY3_TRACE_COMMITMENT",
            "SHROUD_V1_PLONKY3_AIR_PUBLIC_VALUES",
        ]
    );
    assert_eq!(batching[9].1, vec![0x01, 0x02, 0x03, 0x04]);
    assert_eq!(batching[12].1, vec![0xAA; 32]);
    let ood = view(TranscriptStage::SampleOodPoint);
    assert_eq!(ood.len(), 3);
    assert_eq!(ood[0], ("DC", vec![10]));
    assert_eq!(ood[1], (DOMAIN_RANDOMIZER_COMMITMENT, vec![0xCC; 32]));
    assert_eq!(ood[2].1, vec![0xBB; 32]);
    let prove = view(TranscriptStage::ProveMaskedRelation);
    assert_eq!(prove.len(), 5);
    assert_eq!(prove[0], ("PO", vec![12]));
    assert_eq!(
        prove[1..].iter().map(|(_, b)| b.clone()).collect::<Vec<_>>(),
        vec![vec![0xE1], vec![0xE2], vec![0xE3], vec![0xE4]]
    );
}

#[test]
fn extraction_blocks_have_shape_sizes_and_ignore_a_trailing_tail() {
    let (events, next) = recorded_pre_grind_events();
    let shape = LiveExtractorShape::standard();
    let x = extract_pre_grind_slices(&events, &shape).expect("extracts");
    assert_eq!(x.log_ext_degree.len(), shape.log_ext_degree_bytes);
    assert_eq!(x.log_degree.len(), shape.log_degree_bytes);
    assert_eq!(x.preprocessed_width.len(), shape.preprocessed_width_bytes);
    assert_eq!(x.trace_commit.len(), shape.trace_commit_bytes);
    assert_eq!(x.preprocessed_commit, None);
    assert_eq!(x.air_public_values.len(), shape.air_public_values_bytes);
    assert_eq!(x.quotient_commit.len(), shape.quotient_commit_bytes);
    assert_eq!(x.randomizer_commit.len(), shape.randomizer_commit_bytes);
    let mut extended = events.clone();
    extended.push(ByteTranscriptEvent::Sampled(vec![next]));
    extended.push(obs(&[0x55; 7]));
    extended.push(samp(&[0x66; 3]));
    assert_eq!(extract_pre_grind_slices(&extended, &shape), Ok(x));
}
