use shroud::{
    check_advisory, check_profile_drift, pinned_p3_symmetric_provenance,
    pinned_p3_symmetric_version, required_plonky3_hiding_techniques,
    verify_profile_matches_backend, verify_provenance, BackendDriftError, BasisDescriptor,
    HashIdentifier, HidingTechniqueClaim, P3SymmetricProvenance, P3SymmetricVersion,
    Plonky3HashIdentifier, ReferenceHidingFriPcsProfile, TranscriptBindable,
    BACKEND_EXTENSION_DEGREE, BACKEND_LOG_BLOWUP, BACKEND_NUM_QUERIES,
    BACKEND_NUM_RANDOMIZER_COLS, BACKEND_QUERY_POW_BITS, KNOWN_PATCHED_P3_SYMMETRIC_SOURCES,
};

#[test]
fn pinned_state_is_currently_unpatched_per_advisory() {
    assert!(
        !pinned_p3_symmetric_version().is_patched(),
        "pinned p3-symmetric is now patched ({}); flip the unpatched-state tests",
        pinned_p3_symmetric_version().message()
    );
}

#[test]
fn check_advisory_currently_returns_unpatched() {
    let err = check_advisory().expect_err("unpatched stack must fail advisory check");
    match err {
        BackendDriftError::UnpatchedSymmetric {
            provenance,
            min_patched,
        } => {
            assert_eq!(provenance, pinned_p3_symmetric_provenance());
            assert_eq!(min_patched, P3SymmetricVersion::min_patched());
        }
        other => panic!("expected UnpatchedSymmetric, got {other:?}"),
    }
}

#[test]
fn verify_provenance_accepts_patched_registry_version() {
    let prov = P3SymmetricProvenance::Registry {
        version: P3SymmetricVersion::new(0, 6, 0),
        checksum: "synthetic-checksum",
    };
    assert!(verify_provenance(prov, &[]).is_ok());
}

#[test]
fn verify_provenance_rejects_unpatched_registry_version() {
    let prov = P3SymmetricProvenance::Registry {
        version: P3SymmetricVersion::new(0, 5, 2),
        checksum: "synthetic-checksum",
    };
    let err = verify_provenance(prov, &[]).expect_err("registry < 0.6 must fail");
    assert!(matches!(err, BackendDriftError::UnpatchedSymmetric { .. }));
}

#[test]
fn verify_provenance_rejects_unpatched_git_when_allowlist_empty() {
    let prov = P3SymmetricProvenance::Git {
        version: P3SymmetricVersion::new(0, 5, 2),
        source_url: "https://github.com/example/p3-symmetric.git",
        rev: "deadbeefdeadbeefdeadbeefdeadbeefdeadbeef",
    };
    let err = verify_provenance(prov, &[]).expect_err("unreviewed git source must fail");
    assert!(matches!(err, BackendDriftError::UnpatchedSymmetric { .. }));
}

#[test]
fn verify_provenance_accepts_unpatched_git_when_in_allowlist() {
    let url = "https://github.com/example/p3-symmetric.git";
    let rev = "abcd1234abcd1234abcd1234abcd1234abcd1234";
    let prov = P3SymmetricProvenance::Git {
        version: P3SymmetricVersion::new(0, 5, 99),
        source_url: url,
        rev,
    };
    assert!(verify_provenance(prov, &[(url, rev)]).is_ok());
}

#[test]
fn verify_provenance_rejects_git_with_matching_url_but_wrong_rev() {
    let url = "https://github.com/example/p3-symmetric.git";
    let prov = P3SymmetricProvenance::Git {
        version: P3SymmetricVersion::new(0, 5, 2),
        source_url: url,
        rev: "1111111111111111111111111111111111111111",
    };
    let allowlist = [(url, "2222222222222222222222222222222222222222")];
    let err = verify_provenance(prov, &allowlist).expect_err("matching url but wrong rev must fail");
    assert!(matches!(err, BackendDriftError::UnpatchedSymmetric { .. }));
}

#[test]
fn verify_provenance_rejects_git_with_matching_rev_but_wrong_url() {
    let rev = "abcd1234abcd1234abcd1234abcd1234abcd1234";
    let prov = P3SymmetricProvenance::Git {
        version: P3SymmetricVersion::new(0, 5, 2),
        source_url: "https://github.com/attacker/lookalike.git",
        rev,
    };
    let allowlist = [("https://github.com/example/p3-symmetric.git", rev)];
    let err = verify_provenance(prov, &allowlist).expect_err("matching rev but wrong url must fail");
    assert!(matches!(err, BackendDriftError::UnpatchedSymmetric { .. }));
}

#[test]
fn verify_provenance_rejects_patched_git_when_not_allowlisted() {
    let prov = P3SymmetricProvenance::Git {
        version: P3SymmetricVersion::new(0, 7, 0),
        source_url: "https://github.com/example/p3-symmetric.git",
        rev: "unreviewed-even-though-version-is-patched",
    };
    let err = verify_provenance(prov, &[]).expect_err("unreviewed git source must fail");
    assert!(matches!(err, BackendDriftError::UnpatchedSymmetric { .. }));
}

#[test]
fn verify_provenance_accepts_patched_git_when_allowlisted() {
    let url = "https://github.com/example/p3-symmetric.git";
    let rev = "reviewed-patched-git-revision";
    let prov = P3SymmetricProvenance::Git {
        version: P3SymmetricVersion::new(0, 7, 0),
        source_url: url,
        rev,
    };
    assert!(verify_provenance(prov, &[(url, rev)]).is_ok());
}

#[test]
fn known_patched_sources_allowlist_starts_empty() {
    assert!(
        KNOWN_PATCHED_P3_SYMMETRIC_SOURCES.is_empty(),
        "allowlist contains {} entries; each must be audit-justified",
        KNOWN_PATCHED_P3_SYMMETRIC_SOURCES.len()
    );
}

#[test]
fn provenance_version_accessor_returns_inner_version() {
    let reg = P3SymmetricProvenance::Registry {
        version: P3SymmetricVersion::new(0, 5, 2),
        checksum: "x",
    };
    assert_eq!(reg.version(), P3SymmetricVersion::new(0, 5, 2));
    let git = P3SymmetricProvenance::Git {
        version: P3SymmetricVersion::new(0, 7, 0),
        source_url: "u",
        rev: "r",
    };
    assert_eq!(git.version(), P3SymmetricVersion::new(0, 7, 0));
}

#[test]
fn provenance_display_distinguishes_registry_and_git() {
    let reg = P3SymmetricProvenance::Registry {
        version: P3SymmetricVersion::new(0, 5, 2),
        checksum: "synthetic-checksum",
    };
    let git = P3SymmetricProvenance::Git {
        version: P3SymmetricVersion::new(0, 5, 2),
        source_url: "https://example.com/repo.git",
        rev: "deadbeef",
    };
    let reg_msg = reg.message();
    let git_msg = git.message();
    assert!(reg_msg.contains("registry"));
    assert!(reg_msg.contains("synthetic-checksum"));
    assert!(git_msg.contains("git"));
    assert!(git_msg.contains("https://example.com/repo.git"));
    assert!(git_msg.contains("deadbeef"));
}

#[test]
fn provenance_messages_render_exactly() {
    let reg = P3SymmetricProvenance::Registry {
        version: P3SymmetricVersion::new(0, 5, 2),
        checksum: "abc",
    };
    assert_eq!(reg.message(), "registry: version 0.5.2, checksum \"abc\"");
    let git = P3SymmetricProvenance::Git {
        version: P3SymmetricVersion::new(1, 0, 3),
        source_url: "u",
        rev: "r",
    };
    assert_eq!(git.message(), "git: version 1.0.3, source u, rev r");
}

#[test]
fn pinned_provenance_version_matches_pinned_version_accessor() {
    assert_eq!(
        pinned_p3_symmetric_version(),
        pinned_p3_symmetric_provenance().version()
    );
}

#[test]
fn pinned_provenance_is_the_locked_registry_release() {
    match pinned_p3_symmetric_provenance() {
        P3SymmetricProvenance::Registry { version, checksum } => {
            assert_eq!(version, P3SymmetricVersion::new(0, 5, 4));
            assert_eq!(checksum.len(), 64);
        }
        other => panic!("expected registry provenance, got {other:?}"),
    }
}

#[test]
fn verify_profile_matches_backend_currently_blocks_on_advisory() {
    let profile = ReferenceHidingFriPcsProfile::standard();
    let err = verify_profile_matches_backend(&profile).expect_err("unpatched stack must fail");
    assert!(matches!(err, BackendDriftError::UnpatchedSymmetric { .. }));
}

#[test]
fn verify_profile_matches_backend_blocks_even_drifted_profiles_on_advisory() {
    let mut profile = ReferenceHidingFriPcsProfile::standard();
    profile.log_blowup = 7;
    profile.input_mmcs_hiding = false;
    let err = verify_profile_matches_backend(&profile).expect_err("unpatched stack must fail");
    assert!(matches!(err, BackendDriftError::UnpatchedSymmetric { .. }));
}

#[test]
fn check_profile_drift_accepts_standard_profile() {
    let profile = ReferenceHidingFriPcsProfile::standard();
    assert!(check_profile_drift(&profile).is_ok());
}

#[test]
fn check_profile_drift_rejects_drifted_log_blowup() {
    let mut profile = ReferenceHidingFriPcsProfile::standard();
    profile.log_blowup = BACKEND_LOG_BLOWUP + 1;
    let err = check_profile_drift(&profile).expect_err("drifted log_blowup must be rejected");
    assert_eq!(
        err,
        BackendDriftError::LogBlowup {
            expected: BACKEND_LOG_BLOWUP,
            actual: BACKEND_LOG_BLOWUP + 1,
        }
    );
}

#[test]
fn check_profile_drift_rejects_drifted_randomizer_count() {
    let mut profile = ReferenceHidingFriPcsProfile::standard();
    profile.num_random_codewords = BACKEND_NUM_RANDOMIZER_COLS + 1;
    let err = check_profile_drift(&profile).expect_err("drifted num_random_codewords must be rejected");
    assert_eq!(
        err,
        BackendDriftError::NumRandomizerCols {
            expected: BACKEND_NUM_RANDOMIZER_COLS,
            actual: BACKEND_NUM_RANDOMIZER_COLS + 1,
        }
    );
}

#[test]
fn check_profile_drift_rejects_drifted_extension_degree() {
    let mut profile = ReferenceHidingFriPcsProfile::standard();
    profile.basis = BasisDescriptor::plonky3_binomial(2);
    let err = check_profile_drift(&profile).expect_err("drifted extension degree must be rejected");
    assert_eq!(
        err,
        BackendDriftError::ExtensionDegree {
            expected: BACKEND_EXTENSION_DEGREE,
            actual: 2,
        }
    );
}

#[test]
fn check_profile_drift_rejects_non_hiding_input_mmcs() {
    let mut profile = ReferenceHidingFriPcsProfile::standard();
    profile.input_mmcs_hiding = false;
    let err = check_profile_drift(&profile).expect_err("non-hiding input MMCS must be rejected");
    assert_eq!(err, BackendDriftError::NonHidingInputMmcs);
}

#[test]
fn check_profile_drift_rejects_non_hiding_fri_mmcs() {
    let mut profile = ReferenceHidingFriPcsProfile::standard();
    profile.fri_mmcs_hiding = false;
    let err = check_profile_drift(&profile).expect_err("non-hiding FRI MMCS must be rejected");
    assert_eq!(err, BackendDriftError::NonHidingFriMmcs);
}

#[test]
fn check_profile_drift_rejects_missing_random_codeword_interleaving() {
    let mut profile = ReferenceHidingFriPcsProfile::standard();
    profile.hiding_technique = HidingTechniqueClaim::Composite(
        Box::new(HidingTechniqueClaim::QuotientChunkRandomization),
        Box::new(HidingTechniqueClaim::RandomRowPadding),
    );
    let err = check_profile_drift(&profile)
        .expect_err("missing RandomCodewordInterleaving must be rejected");
    assert_eq!(
        err,
        BackendDriftError::MissingHidingTechnique {
            technique: HidingTechniqueClaim::RandomCodewordInterleaving,
        }
    );
}

#[test]
fn check_profile_drift_rejects_missing_quotient_chunk_randomization() {
    let mut profile = ReferenceHidingFriPcsProfile::standard();
    profile.hiding_technique = HidingTechniqueClaim::Composite(
        Box::new(HidingTechniqueClaim::RandomCodewordInterleaving),
        Box::new(HidingTechniqueClaim::RandomRowPadding),
    );
    let err = check_profile_drift(&profile)
        .expect_err("missing QuotientChunkRandomization must be rejected");
    assert_eq!(
        err,
        BackendDriftError::MissingHidingTechnique {
            technique: HidingTechniqueClaim::QuotientChunkRandomization,
        }
    );
}

#[test]
fn check_profile_drift_rejects_missing_random_row_padding() {
    let mut profile = ReferenceHidingFriPcsProfile::standard();
    profile.hiding_technique = HidingTechniqueClaim::Composite(
        Box::new(HidingTechniqueClaim::RandomCodewordInterleaving),
        Box::new(HidingTechniqueClaim::QuotientChunkRandomization),
    );
    let err = check_profile_drift(&profile).expect_err("missing RandomRowPadding must be rejected");
    assert_eq!(
        err,
        BackendDriftError::MissingHidingTechnique {
            technique: HidingTechniqueClaim::RandomRowPadding,
        }
    );
}

#[test]
fn check_profile_drift_reports_first_drift_in_declaration_order() {
    let mut profile = ReferenceHidingFriPcsProfile::standard();
    profile.num_random_codewords = 9;
    profile.fri_mmcs_hiding = false;
    profile.hiding_technique = HidingTechniqueClaim::RandomRowPadding;
    assert_eq!(
        check_profile_drift(&profile),
        Err(BackendDriftError::NumRandomizerCols {
            expected: BACKEND_NUM_RANDOMIZER_COLS,
            actual: 9,
        })
    );
}

#[test]
fn drift_error_display_includes_expected_and_actual() {
    let err = BackendDriftError::LogBlowup {
        expected: 2,
        actual: 3,
    };
    let msg = err.message();
    assert!(msg.contains("expected 2"));
    assert!(msg.contains("got 3"));
    assert_eq!(
        msg,
        "log_blowup drifted from backend LOG_BLOWUP_HIDING: expected 2, got 3"
    );
}

#[test]
fn unpatched_display_cites_advisory_and_provenance() {
    let err = BackendDriftError::UnpatchedSymmetric {
        provenance: P3SymmetricProvenance::Registry {
            version: P3SymmetricVersion::new(0, 5, 9),
            checksum: "synthetic-checksum",
        },
        min_patched: P3SymmetricVersion::min_patched(),
    };
    let msg = err.message();
    assert!(msg.contains("GHSA-3g92-f9ch-qjcm"));
    assert!(msg.contains("0.5.9"));
    assert!(msg.contains("0.6.0"));
    assert!(msg.contains("registry"));
    assert!(msg.contains("synthetic-checksum"));
}

#[test]
fn unpatched_display_for_git_source_includes_url_and_rev() {
    let err = BackendDriftError::UnpatchedSymmetric {
        provenance: P3SymmetricProvenance::Git {
            version: P3SymmetricVersion::new(0, 5, 2),
            source_url: "https://github.com/example/p3-symmetric.git",
            rev: "abcd1234",
        },
        min_patched: P3SymmetricVersion::min_patched(),
    };
    let msg = err.message();
    assert!(msg.contains("git"));
    assert!(msg.contains("https://github.com/example/p3-symmetric.git"));
    assert!(msg.contains("abcd1234"));
    assert!(msg.contains("KNOWN_PATCHED_P3_SYMMETRIC_SOURCES"));
}

#[test]
fn non_hiding_mmcs_display_explains_requirement() {
    let in_msg = BackendDriftError::NonHidingInputMmcs.message();
    let fri_msg = BackendDriftError::NonHidingFriMmcs.message();
    assert!(in_msg.contains("input_mmcs_hiding"));
    assert!(fri_msg.contains("fri_mmcs_hiding"));
}

#[test]
fn missing_technique_display_names_the_technique() {
    let err = BackendDriftError::MissingHidingTechnique {
        technique: HidingTechniqueClaim::RandomCodewordInterleaving,
    };
    let msg = err.message();
    assert!(msg.contains("random codeword interleaving"));
}

#[test]
fn min_patched_is_zero_six_zero() {
    assert_eq!(P3SymmetricVersion::min_patched(), P3SymmetricVersion::new(0, 6, 0));
}

#[test]
fn is_patched_accepts_exact_floor() {
    assert!(P3SymmetricVersion::new(0, 6, 0).is_patched());
}

#[test]
fn is_patched_accepts_above_floor() {
    assert!(P3SymmetricVersion::new(0, 6, 1).is_patched());
    assert!(P3SymmetricVersion::new(0, 7, 0).is_patched());
    assert!(P3SymmetricVersion::new(1, 0, 0).is_patched());
}

#[test]
fn is_patched_rejects_below_floor() {
    assert!(!P3SymmetricVersion::new(0, 5, 99).is_patched());
    assert!(!P3SymmetricVersion::new(0, 5, 0).is_patched());
    assert!(!P3SymmetricVersion::new(0, 0, 1).is_patched());
}

#[test]
fn version_display_renders_dotted() {
    assert_eq!(P3SymmetricVersion::new(0, 6, 1).message(), "0.6.1");
    assert_eq!(P3SymmetricVersion::new(1, 2, 3).message(), "1.2.3");
}

#[test]
fn standard_hash_identifier_renders_canonical_form() {
    let id = Plonky3HashIdentifier::standard();
    let rendered = id.render();
    assert!(rendered.starts_with("plonky3-zk:v1:"));
    assert!(rendered.contains(":babybear:"));
    assert!(rendered.contains(":ext4:"));
    assert!(rendered.contains(":keccak256:"));
    assert!(rendered.contains(":pf_sponge_25_17_4:"));
    assert!(rendered.contains(":ser_chal32:"));
    assert!(rendered.contains(":mtree_hiding_mmcs:"));
    assert!(rendered.contains(":ext_mmcs:"));
    assert!(rendered.contains(":radix2_dit_parallel:"));
    assert!(rendered.contains(":hiding_rng:"));
    assert!(rendered.contains(":log_blowup2:"));
    assert!(rendered.contains(":randomizers4:"));
    assert!(rendered.contains(":queries40:"));
    assert!(rendered.contains(":pow8:"));
    let expected_suffix = format!(":p3sym{}", pinned_p3_symmetric_version().message());
    assert!(rendered.ends_with(&expected_suffix));
}

#[test]
fn standard_hash_identifier_renders_exact_string() {
    assert_eq!(
        Plonky3HashIdentifier::standard().render(),
        "plonky3-zk:v1:babybear:ext4:keccak256:pf_sponge_25_17_4:ser_chal32:mtree_hiding_mmcs:ext_mmcs:radix2_dit_parallel:hiding_rng:log_blowup2:randomizers4:queries40:pow8:p3sym0.5.4"
    );
}

#[test]
fn standard_hash_identifier_is_stable() {
    let a = Plonky3HashIdentifier::standard().render();
    let b = Plonky3HashIdentifier::standard().render();
    assert_eq!(a, b);
}

#[test]
fn different_p3_symmetric_versions_produce_different_identifiers() {
    let a = Plonky3HashIdentifier::standard().render();
    let b = Plonky3HashIdentifier::standard()
        .with_p3_symmetric(P3SymmetricVersion::new(99, 99, 99))
        .render();
    assert_ne!(a, b);
    assert!(b.contains(":p3sym99.99.99"));
}

#[test]
fn standard_identifier_embeds_resolved_version_not_min_patched() {
    let rendered = Plonky3HashIdentifier::standard().render();
    let expected_suffix = format!(":p3sym{}", pinned_p3_symmetric_version().message());
    assert!(rendered.ends_with(&expected_suffix));
    assert_eq!(
        Plonky3HashIdentifier::standard().p3_symmetric(),
        pinned_p3_symmetric_version()
    );
    assert_ne!(
        Plonky3HashIdentifier::standard().p3_symmetric(),
        P3SymmetricVersion::min_patched()
    );
}

#[test]
fn hash_identifier_round_trips_through_to_hash_identifier() {
    let id = Plonky3HashIdentifier::standard();
    let hash_id = id.to_hash_identifier();
    assert_eq!(hash_id.suite(), id.render());
}

#[test]
fn transcript_binding_matches_hash_identifier_binding() {
    let id = Plonky3HashIdentifier::standard();
    let direct = id.to_transcript_binding();
    let via_hash_id = HashIdentifier::new(id.render()).to_transcript_binding();
    assert_eq!(direct, via_hash_id);
}

#[test]
fn required_techniques_are_the_three_plonky3_composite_layers() {
    let required = required_plonky3_hiding_techniques();
    assert_eq!(required.len(), 3);
    assert!(required.contains(&HidingTechniqueClaim::RandomCodewordInterleaving));
    assert!(required.contains(&HidingTechniqueClaim::QuotientChunkRandomization));
    assert!(required.contains(&HidingTechniqueClaim::RandomRowPadding));
}

#[test]
fn standard_profile_satisfies_all_required_techniques() {
    let profile = ReferenceHidingFriPcsProfile::standard();
    for technique in required_plonky3_hiding_techniques() {
        assert!(
            profile.hiding_technique.contains(&technique),
            "standard profile must contain {}",
            technique.message()
        );
    }
}

#[test]
fn phase_2b_config_uses_pinned_backend_constants() {
    assert_eq!(BACKEND_LOG_BLOWUP, 2);
    assert_eq!(BACKEND_NUM_RANDOMIZER_COLS, 4);
    assert_eq!(BACKEND_EXTENSION_DEGREE, 4);
    assert_eq!(BACKEND_NUM_QUERIES, 40);
    assert_eq!(BACKEND_QUERY_POW_BITS, 8);
}
