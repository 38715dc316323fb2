//! Plonky3 bridge checks: the pinned backend constants, the `p3-symmetric`
//! advisory gate, profile drift against the backend, and the canonical
//! hash-suite identifier of the pinned stack.
//!
//! `p3-symmetric < 0.6` admits sponge-length collisions when an attacker can
//! vary the number of hashed elements (advisory GHSA-3g92-f9ch-qjcm). The
//! bridge refuses an unpatched stack: the advisory gate passes only for a
//! registry release at or above the patched floor, or for a git source whose
//! exact `(url, rev)` pair was reviewed and allowlisted.
use vstd::prelude::*;
use crate::binding::{HashIdentifier, TranscriptBindable, TranscriptBinding, hash_identifier_bytes, DOMAIN_HASH_ID};
use crate::claim::{BasisDescriptor, CoordinateOrder, ReconstructionRule};
use crate::hiding::{HidingTechniqueClaim, claim_contains, claim_text};
use crate::text::{decimal, is_digit, lemma_decimal_digits, lemma_decimal_injective, lemma_split_at_separator, push_decimal, push_quoted, quoted};

verus! {

/// Pinned backend constant: `LOG_BLOWUP_HIDING` of the hiding backend.
pub const BACKEND_LOG_BLOWUP: usize = 2;

/// Pinned backend constant: `NUM_RANDOMIZER_COLS` of the hiding backend.
pub const BACKEND_NUM_RANDOMIZER_COLS: usize = 4;

/// Pinned backend constant: degree of `BinomialExtensionField<BabyBear, 4>`.
pub const BACKEND_EXTENSION_DEGREE: usize = 4;

/// Pinned backend constant: `NUM_QUERIES` of the hiding backend.
pub const BACKEND_NUM_QUERIES: usize = 40;

/// Pinned backend constant: `QUERY_POW_BITS` of the hiding backend.
pub const BACKEND_QUERY_POW_BITS: usize = 8;

/// Semantic version of `p3-symmetric`.
#[derive(Clone, Copy, Debug, PartialEq, Eq, Hash, Structural)]
pub struct P3SymmetricVersion {
    /// Major version component.
    pub major: u64,
    /// Minor version component.
    pub minor: u64,
    /// Patch version component.
    pub patch: u64,
}

/// `v` is at least `floor` in the lexicographic order on `(major, minor, patch)`.
pub open spec fn version_at_least(v: P3SymmetricVersion, floor: P3SymmetricVersion) -> bool {
    ||| v.major > floor.major
    ||| (v.major == floor.major && v.minor > floor.minor)
    ||| (v.major == floor.major && v.minor == floor.minor && v.patch >= floor.patch)
}

/// The first release with the advisory fix: `0.6.0`.
pub open spec fn min_patched_version() -> P3SymmetricVersion {
    P3SymmetricVersion { major: 0, minor: 6, patch: 0 }
}

/// Dotted rendering `major.minor.patch`.
pub open spec fn version_text(v: P3SymmetricVersion) -> Seq<char> {
    decimal(v.major as nat) + "."@ + decimal(v.minor as nat) + "."@ + decimal(v.patch as nat)
}

impl P3SymmetricVersion {
    /// Constructs a version from its major/minor/patch components.
    pub fn new(major: u64, minor: u64, patch: u64) -> (v: Self)
        ensures
            v == (P3SymmetricVersion { major, minor, patch }),
    {
        P3SymmetricVersion { major, minor, patch }
    }

    /// The minimum patched version per the advisory: `0.6.0`.
    pub fn min_patched() -> (v: Self)
        ensures
            v == min_patched_version(),
    {
        P3SymmetricVersion { major: 0, minor: 6, patch: 0 }
    }

    /// Returns `true` if this version is at least [`Self::min_patched`],
    /// comparing `(major, minor, patch)` lexicographically.
    pub fn is_patched(&self) -> (r: bool)
        ensures
            r == version_at_least(*self, min_patched_version()),
    {
        let floor = Self::min_patched();
        if self.major != floor.major {
            return self.major > floor.major;
        }
        if self.minor != floor.minor {
            return self.minor > floor.minor;
        }
        self.patch >= floor.patch
    }

    /// Appends the dotted rendering of this version to `out`.
    fn push_text(&self, out: &mut String)
        ensures
            final(out)@ == old(out)@ + version_text(*self),
    {
        proof {
            reveal_strlit(".");
        }
        push_decimal(out, self.major);
        out.append(".");
        push_decimal(out, self.minor);
        out.append(".");
        push_decimal(out, self.patch);
        assert(out@ =~= old(out)@ + version_text(*self));
    }

    /// The dotted rendering `major.minor.patch`.
    pub fn message(&self) -> (r: String)
        ensures
            r@ == version_text(*self),
    {
        let mut s = String::new();
        self.push_text(&mut s);
        assert(s@ =~= version_text(*self));
        s
    }
}

/// Where the resolved `p3-symmetric` came from.
#[derive(Clone, Copy, Debug, PartialEq, Eq, Hash)]
pub enum P3SymmetricProvenance {
    /// Resolved from a Cargo registry (typically `crates.io`).
    Registry {
        /// Declared semver from the lockfile entry.
        version: P3SymmetricVersion,
        /// SHA-256 of the `.crate` artifact as recorded by Cargo (empty when absent).
        checksum: &'static str,
    },
    /// Resolved from a git source (e.g. through a `[patch.crates-io]` override).
    ///
    /// The declared version of a git source is whatever its manifest says,
    /// so patch state is decided by the reviewed `(source_url, rev)` pair,
    /// never by the version.
    Git {
        /// Declared semver from the lockfile entry.
        version: P3SymmetricVersion,
        /// Clean repository URL.
        source_url: &'static str,
        /// Full resolved commit hash.
        rev: &'static str,
    },
}

/// The declared version of a provenance, whatever its source kind.
pub open spec fn provenance_version(p: P3SymmetricProvenance) -> P3SymmetricVersion {
    match p {
        P3SymmetricProvenance::Registry { version, .. } => version,
        P3SymmetricProvenance::Git { version, .. } => version,
    }
}

/// Human-readable rendering of a provenance.
pub open spec fn provenance_text(p: P3SymmetricProvenance) -> Seq<char> {
    match p {
        P3SymmetricProvenance::Registry { version, checksum } => "registry: version "@
            + version_text(version) + ", checksum "@ + quoted(checksum@),
        P3SymmetricProvenance::Git { version, source_url, rev } => "git: version "@
            + version_text(version) + ", source "@ + source_url@ + ", rev "@ + rev@,
    }
}

impl P3SymmetricProvenance {
    /// Declared semver, regardless of source kind.
    pub fn version(&self) -> (v: P3SymmetricVersion)
        ensures
            v == provenance_version(*self),
    {
        match self {
            P3SymmetricProvenance::Registry { version, .. } => *version,
            P3SymmetricProvenance::Git { version, .. } => *version,
        }
    }

    /// Appends the human-readable rendering of this provenance to `out`.
    fn push_text(&self, out: &mut String)
        ensures
            final(out)@ == old(out)@ + provenance_text(*self),
    {
        match self {
            P3SymmetricProvenance::Registry { version, checksum } => {
                out.append("registry: version ");
                version.push_text(out);
                out.append(", checksum ");
                push_quoted(out, checksum);
            },
            P3SymmetricProvenance::Git { version, source_url, rev } => {
                out.append("git: version ");
                version.push_text(out);
                out.append(", source ");
                out.append(source_url);
                out.append(", rev ");
                out.append(rev);
            },
        }
        assert(out@ =~= old(out)@ + provenance_text(*self));
    }

    /// Human-readable rendering: the source kind, the version, and the
    /// checksum (registry) or the URL and revision (git).
    pub fn message(&self) -> (r: String)
        ensures
            r@ == provenance_text(*self),
    {
        let mut s = String::new();
        self.push_text(&mut s);
        assert(s@ =~= provenance_text(*self));
        s
    }
}

/// The version of `p3-symmetric` this crate resolves (`0.5.4`).
pub open spec fn pinned_version() -> P3SymmetricVersion {
    P3SymmetricVersion { major: 0, minor: 5, patch: 4 }
}

/// The provenance of the `p3-symmetric` this crate resolves: the registry
/// release `0.5.4` with its lockfile checksum.
pub open spec fn pinned_provenance() -> P3SymmetricProvenance {
    P3SymmetricProvenance::Registry {
        version: pinned_version(),
        checksum: "af42757f727b25aca1eac49f2562ad2131c99d259d7143e89075e7b7be6b7952",
    }
}

/// The provenance of the resolved `p3-symmetric`, as recorded in the lockfile.
pub fn pinned_p3_symmetric_provenance() -> (p: P3SymmetricProvenance)
    ensures
        p == pinned_provenance(),
{
    P3SymmetricProvenance::Registry {
        version: pinned_p3_symmetric_version(),
        checksum: "af42757f727b25aca1eac49f2562ad2131c99d259d7143e89075e7b7be6b7952",
    }
}

/// The resolved `p3-symmetric` version.
pub fn pinned_p3_symmetric_version() -> (v: P3SymmetricVersion)
    ensures
        v == pinned_version(),
{
    P3SymmetricVersion { major: 0, minor: 5, patch: 4 }
}

/// Reviewed `(repository URL, commit hash)` pairs of `p3-symmetric` git
/// sources confirmed to carry the advisory fix. Empty until a real patched
/// source is reviewed; each entry must name the commit and the review of
/// the diff that closes the advisory.
pub const KNOWN_PATCHED_P3_SYMMETRIC_SOURCES: [(&'static str, &'static str); 0] = [];

/// First detected mismatch between a hiding-FRI profile and the pinned
/// backend, or an advisory violation.
#[derive(Clone, Debug, PartialEq, Eq)]
pub enum BackendDriftError {
    /// `log_blowup` does not match [`BACKEND_LOG_BLOWUP`].
    LogBlowup {
        /// Pinned-backend value.
        expected: usize,
        /// Value declared by the profile.
        actual: usize,
    },
    /// `num_random_codewords` does not match [`BACKEND_NUM_RANDOMIZER_COLS`].
    NumRandomizerCols {
        /// Pinned-backend value.
        expected: usize,
        /// Value declared by the profile.
        actual: usize,
    },
    /// `basis.extension_degree` does not match [`BACKEND_EXTENSION_DEGREE`].
    ExtensionDegree {
        /// Pinned-backend value.
        expected: usize,
        /// Value declared by the profile.
        actual: usize,
    },
    /// The resolved `p3-symmetric` does not satisfy the advisory floor.
    UnpatchedSymmetric {
        /// The resolved provenance, which is below the advisory floor.
        provenance: P3SymmetricProvenance,
        /// Minimum patched version per the advisory.
        min_patched: P3SymmetricVersion,
    },
    /// The profile declares a non-hiding input MMCS.
    NonHidingInputMmcs,
    /// The profile declares a non-hiding FRI query-phase MMCS.
    NonHidingFriMmcs,
    /// The profile's hiding-technique claim lacks a technique the pinned stack requires.
    MissingHidingTechnique {
        /// The required technique that is absent from the declared claim.
        technique: HidingTechniqueClaim,
    },
}

/// Whether `(url, rev)` appears in the allowlist.
pub open spec fn allowlisted(allowlist: Seq<(&'static str, &'static str)>, url: Seq<char>, rev: Seq<char>) -> bool {
    exists|i: int| 0 <= i < allowlist.len() && (#[trigger] allowlist[i]).0@ == url && allowlist[i].1@ == rev
}

/// The advisory gate: a registry release at or above the patched floor, or
/// a git source whose exact `(url, rev)` pair is allowlisted.
pub open spec fn provenance_passes(p: P3SymmetricProvenance, allowlist: Seq<(&'static str, &'static str)>) -> bool {
    match p {
        P3SymmetricProvenance::Registry { version, .. } => version_at_least(version, min_patched_version()),
        P3SymmetricProvenance::Git { source_url, rev, .. } => allowlisted(allowlist, source_url@, rev@),
    }
}

/// The outcome of the advisory gate on a provenance.
pub open spec fn provenance_verdict(p: P3SymmetricProvenance, allowlist: Seq<(&'static str, &'static str)>) -> Result<(), BackendDriftError> {
    if provenance_passes(p, allowlist) {
        Ok(())
    } else {
        Err(BackendDriftError::UnpatchedSymmetric { provenance: p, min_patched: min_patched_version() })
    }
}

/// Whether `(url, rev)` appears in `allowlist`.
fn allowlist_contains(allowlist: &[(&'static str, &'static str)], url: &'static str, rev: &'static str) -> (r: bool)
    ensures
        r == allowlisted(allowlist@, url@, rev@),
{
    let mut i: usize = 0;
    while i < allowlist.len()
        invariant
            0 <= i <= allowlist@.len(),
            forall|j: int| 0 <= j < i ==> !((#[trigger] allowlist@[j]).0@ == url@ && allowlist@[j].1@ == rev@),
        decreases allowlist@.len() - i,
    {
        let (u, v) = allowlist[i];
        if crate::bytes::str_equal(u, url) && crate::bytes::str_equal(v, rev) {
            assert(allowlist@[i as int].0@ == url@);
            return true;
        }
        i = i + 1;
    }
    false
}

/// Checks a `p3-symmetric` provenance against the advisory under the given
/// allowlist of reviewed git sources.
///
/// Returns `Ok` iff the source is a registry release at or above `0.6.0`, or
/// a git source whose exact `(source_url, rev)` pair is in `allowlist`; a
/// git source's declared version never decides. Otherwise returns
/// [`BackendDriftError::UnpatchedSymmetric`] with the provenance.
pub fn verify_provenance(
    provenance: P3SymmetricProvenance,
    allowlist: &[(&'static str, &'static str)],
) -> (r: Result<(), BackendDriftError>)
    ensures
        r == provenance_verdict(provenance, allowlist@),
{
    let passes = match provenance {
        P3SymmetricProvenance::Registry { version, .. } => version.is_patched(),
        P3SymmetricProvenance::Git { source_url, rev, .. } => allowlist_contains(allowlist, source_url, rev),
    };
    if passes {
        Ok(())
    } else {
        Err(BackendDriftError::UnpatchedSymmetric {
            provenance,
            min_patched: P3SymmetricVersion::min_patched(),
        })
    }
}

/// Checks the resolved `p3-symmetric` provenance against the advisory with
/// the reviewed allowlist.
pub fn check_advisory() -> (r: Result<(), BackendDriftError>)
    ensures
        r == provenance_verdict(pinned_provenance(), Seq::empty()),
{
    let allowlist = KNOWN_PATCHED_P3_SYMMETRIC_SOURCES;
    let r = verify_provenance(pinned_p3_symmetric_provenance(), allowlist.as_slice());
    assert(allowlist@ =~= Seq::<(&'static str, &'static str)>::empty());
    r
}

/// Human-readable rendering of a drift error.
pub open spec fn drift_error_text(e: BackendDriftError) -> Seq<char> {
    match e {
        BackendDriftError::LogBlowup { expected, actual } =>
            "log_blowup drifted from backend LOG_BLOWUP_HIDING: "@ + expected_got_text(expected, actual),
        BackendDriftError::NumRandomizerCols { expected, actual } =>
            "num_random_codewords drifted from backend NUM_RANDOMIZER_COLS: "@
                + expected_got_text(expected, actual),
        BackendDriftError::ExtensionDegree { expected, actual } =>
            "basis extension degree drifted from backend BinomialExtensionField<BabyBear, 4>: "@
                + expected_got_text(expected, actual),
        BackendDriftError::UnpatchedSymmetric { provenance, min_patched } =>
            "p3-symmetric failed the GHSA-3g92-f9ch-qjcm advisory gate: resolved "@ + provenance_text(provenance)
                + "; advisory floor is version >= "@ + version_text(min_patched)
                + unpatched_tail(),
        BackendDriftError::NonHidingInputMmcs =>
            "profile declares input_mmcs_hiding = false; HidingFriPcs requires a hiding input MMCS"@,
        BackendDriftError::NonHidingFriMmcs =>
            "profile declares fri_mmcs_hiding = false; HidingFriPcs requires a hiding FRI MMCS"@,
        BackendDriftError::MissingHidingTechnique { technique } =>
            "profile's hiding_technique claim does not contain "@ + claim_text(technique)
                + "; the pinned Plonky3 stack composes RandomCodewordInterleaving, QuotientChunkRandomization, and RandomRowPadding"@,
    }
}

/// "expected {e}, got {a}".
pub open spec fn expected_got_text(expected: usize, actual: usize) -> Seq<char> {
    "expected "@ + decimal(expected as nat) + ", got "@ + decimal(actual as nat)
}

/// The remedy appended to the advisory-gate message.
pub open spec fn unpatched_tail() -> Seq<char> {
    " OR a git source matching KNOWN_PATCHED_P3_SYMMETRIC_SOURCES. The bridge refuses to start until either the registry resolves a patched release or the workspace adds a [patch.crates-io] redirect pointing p3-symmetric at a reviewed git commit"@
}

/// Appends "expected {e}, got {a}" to `out`.
fn push_expected_got(out: &mut String, expected: usize, actual: usize)
    ensures
        final(out)@ == old(out)@ + expected_got_text(expected, actual),
{
    out.append("expected ");
    push_decimal(out, expected as u64);
    out.append(", got ");
    push_decimal(out, actual as u64);
    assert(out@ =~= old(out)@ + expected_got_text(expected, actual));
}

impl BackendDriftError {
    /// Human-readable description of the drift or advisory violation.
    pub fn message(&self) -> (r: String)
        ensures
            r@ == drift_error_text(*self),
    {
        let mut s = String::new();
        match self {
            BackendDriftError::LogBlowup { expected, actual } => {
                s.append("log_blowup drifted from backend LOG_BLOWUP_HIDING: ");
                push_expected_got(&mut s, *expected, *actual);
            },
            BackendDriftError::NumRandomizerCols { expected, actual } => {
                s.append("num_random_codewords drifted from backend NUM_RANDOMIZER_COLS: ");
                push_expected_got(&mut s, *expected, *actual);
            },
            BackendDriftError::ExtensionDegree { expected, actual } => {
                s.append("basis extension degree drifted from backend BinomialExtensionField<BabyBear, 4>: ");
                push_expected_got(&mut s, *expected, *actual);
            },
            BackendDriftError::UnpatchedSymmetric { provenance, min_patched } => {
                s.append("p3-symmetric failed the GHSA-3g92-f9ch-qjcm advisory gate: resolved ");
                provenance.push_text(&mut s);
                s.append("; advisory floor is version >= ");
                min_patched.push_text(&mut s);
                s.append(" OR a git source matching KNOWN_PATCHED_P3_SYMMETRIC_SOURCES. The bridge refuses to start until either the registry resolves a patched release or the workspace adds a [patch.crates-io] redirect pointing p3-symmetric at a reviewed git commit");
            },
            BackendDriftError::NonHidingInputMmcs => {
                s.append("profile declares input_mmcs_hiding = false; HidingFriPcs requires a hiding input MMCS");
            },
            BackendDriftError::NonHidingFriMmcs => {
                s.append("profile declares fri_mmcs_hiding = false; HidingFriPcs requires a hiding FRI MMCS");
            },
            BackendDriftError::MissingHidingTechnique { technique } => {
                s.append("profile's hiding_technique claim does not contain ");
                let t = technique.message();
                s.append(t.as_str());
                s.append("; the pinned Plonky3 stack composes RandomCodewordInterleaving, QuotientChunkRandomization, and RandomRowPadding");
            },
        }
        assert(s@ =~= drift_error_text(*self));
        s
    }
}

/// A hiding-FRI PCS profile as declared by a prover: the parameters and
/// hiding properties that the bridge audits against the pinned backend.
#[derive(Debug, PartialEq, Eq)]
pub struct ReferenceHidingFriPcsProfile {
    /// Log2 of the Reed-Solomon blowup factor.
    pub log_blowup: usize,
    /// Number of random codewords interleaved with the witness.
    pub num_random_codewords: usize,
    /// Basis of the extension field the randomizers live in.
    pub basis: BasisDescriptor,
    /// Whether the input MMCS is hiding.
    pub input_mmcs_hiding: bool,
    /// Whether the FRI query-phase MMCS is hiding.
    pub fri_mmcs_hiding: bool,
    /// The declared hiding technique.
    pub hiding_technique: HidingTechniqueClaim,
}

/// The hiding composition of the pinned Plonky3 stack.
pub open spec fn standard_hiding_technique() -> HidingTechniqueClaim {
    HidingTechniqueClaim::Composite(
        Box::new(HidingTechniqueClaim::Composite(
            Box::new(HidingTechniqueClaim::RandomCodewordInterleaving),
            Box::new(HidingTechniqueClaim::QuotientChunkRandomization),
        )),
        Box::new(HidingTechniqueClaim::RandomRowPadding),
    )
}

impl ReferenceHidingFriPcsProfile {
    /// The profile of the pinned hiding backend: blowup `2^2`, four random
    /// codewords, the degree-4 binomial basis, hiding input and FRI MMCS, and
    /// random codeword interleaving composed with quotient chunk
    /// randomization and random row padding.
    pub fn standard() -> (p: Self)
        ensures
            p.log_blowup == BACKEND_LOG_BLOWUP,
            p.num_random_codewords == BACKEND_NUM_RANDOMIZER_COLS,
            p.basis == (BasisDescriptor {
                extension_degree: BACKEND_EXTENSION_DEGREE,
                coordinate_order: CoordinateOrder::LittleEndianMonomial,
                reconstruction_rule: ReconstructionRule::BinomialExtension,
            }),
            p.input_mmcs_hiding,
            p.fri_mmcs_hiding,
            p.hiding_technique == standard_hiding_technique(),
    {
        ReferenceHidingFriPcsProfile {
            log_blowup: BACKEND_LOG_BLOWUP,
            num_random_codewords: BACKEND_NUM_RANDOMIZER_COLS,
            basis: BasisDescriptor::plonky3_binomial(BACKEND_EXTENSION_DEGREE),
            input_mmcs_hiding: true,
            fri_mmcs_hiding: true,
            hiding_technique: HidingTechniqueClaim::Composite(
                Box::new(HidingTechniqueClaim::Composite(
                    Box::new(HidingTechniqueClaim::RandomCodewordInterleaving),
                    Box::new(HidingTechniqueClaim::QuotientChunkRandomization),
                )),
                Box::new(HidingTechniqueClaim::RandomRowPadding),
            ),
        }
    }
}

/// The three techniques the pinned Plonky3 stack composes, in check order.
pub open spec fn required_techniques() -> Seq<HidingTechniqueClaim> {
    seq![
        HidingTechniqueClaim::RandomCodewordInterleaving,
        HidingTechniqueClaim::QuotientChunkRandomization,
        HidingTechniqueClaim::RandomRowPadding,
    ]
}

/// Returns the three hiding techniques that the pinned Plonky3 backend stack
/// composes; a profile's claim must contain each of them.
pub fn required_plonky3_hiding_techniques() -> (r: [HidingTechniqueClaim; 3])
    ensures
        r@ == required_techniques(),
{
    let r = [
        HidingTechniqueClaim::RandomCodewordInterleaving,
        HidingTechniqueClaim::QuotientChunkRandomization,
        HidingTechniqueClaim::RandomRowPadding,
    ];
    assert(r@ =~= required_techniques());
    r
}

/// The index of the first required technique absent from `claim`, if any.
pub open spec fn first_missing_technique(claim: HidingTechniqueClaim, k: int) -> Option<int>
    decreases 3 - k,
{
    if k >= 3 || k < 0 {
        None
    } else if !claim_contains(claim, required_techniques()[k]) {
        Some(k)
    } else {
        first_missing_technique(claim, k + 1)
    }
}

/// The outcome of the profile-drift checks, in declaration order:
/// `log_blowup`, `num_random_codewords`, `basis.extension_degree`, the two
/// MMCS hiding flags, then the required techniques in order.
pub open spec fn drift_verdict(p: ReferenceHidingFriPcsProfile) -> Result<(), BackendDriftError> {
    if p.log_blowup != BACKEND_LOG_BLOWUP {
        Err(BackendDriftError::LogBlowup { expected: BACKEND_LOG_BLOWUP, actual: p.log_blowup })
    } else if p.num_random_codewords != BACKEND_NUM_RANDOMIZER_COLS {
        Err(BackendDriftError::NumRandomizerCols { expected: BACKEND_NUM_RANDOMIZER_COLS, actual: p.num_random_codewords })
    } else if p.basis.extension_degree != BACKEND_EXTENSION_DEGREE {
        Err(BackendDriftError::ExtensionDegree { expected: BACKEND_EXTENSION_DEGREE, actual: p.basis.extension_degree })
    } else if !p.input_mmcs_hiding {
        Err(BackendDriftError::NonHidingInputMmcs)
    } else if !p.fri_mmcs_hiding {
        Err(BackendDriftError::NonHidingFriMmcs)
    } else {
        match first_missing_technique(p.hiding_technique, 0) {
            Some(k) => Err(BackendDriftError::MissingHidingTechnique { technique: required_techniques()[k] }),
            None => Ok(()),
        }
    }
}

/// Checks every profile field that influences the bridge's hiding semantics
/// against the pinned backend constants, independently of the advisory.
///
/// Checked in declaration order; the first detected drift is returned:
/// `log_blowup`, `num_random_codewords`, `basis.extension_degree`,
/// `input_mmcs_hiding`, `fri_mmcs_hiding`, then each required technique.
pub fn check_profile_drift(profile: &ReferenceHidingFriPcsProfile) -> (r: Result<(), BackendDriftError>)
    ensures
        r == drift_verdict(*profile),
{
    if profile.log_blowup != BACKEND_LOG_BLOWUP {
        return Err(BackendDriftError::LogBlowup { expected: BACKEND_LOG_BLOWUP, actual: profile.log_blowup });
    }
    if profile.num_random_codewords != BACKEND_NUM_RANDOMIZER_COLS {
        return Err(BackendDriftError::NumRandomizerCols {
            expected: BACKEND_NUM_RANDOMIZER_COLS,
            actual: profile.num_random_codewords,
        });
    }
    if profile.basis.extension_degree != BACKEND_EXTENSION_DEGREE {
        return Err(BackendDriftError::ExtensionDegree {
            expected: BACKEND_EXTENSION_DEGREE,
            actual: profile.basis.extension_degree,
        });
    }
    if !profile.input_mmcs_hiding {
        return Err(BackendDriftError::NonHidingInputMmcs);
    }
    if !profile.fri_mmcs_hiding {
        return Err(BackendDriftError::NonHidingFriMmcs);
    }
    let required = required_plonky3_hiding_techniques();
    let mut k: usize = 0;
    while k < 3
        invariant
            0 <= k <= 3,
            required@ == required_techniques(),
            profile.log_blowup == BACKEND_LOG_BLOWUP,
            profile.num_random_codewords == BACKEND_NUM_RANDOMIZER_COLS,
            profile.basis.extension_degree == BACKEND_EXTENSION_DEGREE,
            profile.input_mmcs_hiding,
            profile.fri_mmcs_hiding,
            first_missing_technique(profile.hiding_technique, 0) == first_missing_technique(
                profile.hiding_technique,
                k as int,
            ),
        decreases 3 - k,
    {
        if !profile.hiding_technique.contains(&required[k]) {
            assert(first_missing_technique(profile.hiding_technique, k as int) == Some(k as int));
            return Err(BackendDriftError::MissingHidingTechnique { technique: required[k].duplicate() });
        }
        k = k + 1;
    }
    Ok(())
}

/// The combined bridge check: the advisory gate first, then profile drift.
pub open spec fn backend_verdict(p: ReferenceHidingFriPcsProfile) -> Result<(), BackendDriftError> {
    match provenance_verdict(pinned_provenance(), Seq::empty()) {
        Err(e) => Err(e),
        Ok(_) => drift_verdict(p),
    }
}

/// Verifies the profile against the pinned backend and the advisory; the
/// advisory check comes first.
pub fn verify_profile_matches_backend(profile: &ReferenceHidingFriPcsProfile) -> (r: Result<(), BackendDriftError>)
    ensures
        r == backend_verdict(*profile),
{
    match check_advisory() {
        Err(e) => return Err(e),
        Ok(_) => {},
    }
    check_profile_drift(profile)
}

/// Canonical hash-suite identifier for the pinned Plonky3 backend stack:
/// field, extension degree, byte hash, sponge, challenger, MMCS, DFT, RNG,
/// FRI parameters and the resolved `p3-symmetric` version.
#[derive(Clone, Debug, PartialEq, Eq)]
pub struct Plonky3HashIdentifier {
    field: &'static str,
    extension_degree: usize,
    byte_hash: &'static str,
    sponge: &'static str,
    challenger: &'static str,
    val_mmcs: &'static str,
    challenge_mmcs: &'static str,
    dft: &'static str,
    rng: &'static str,
    log_blowup: usize,
    num_randomizer_cols: usize,
    num_queries: usize,
    query_pow_bits: usize,
    p3_symmetric: P3SymmetricVersion,
}

/// The rendering of the standard identifier embedding `p3-symmetric` version `v`.
pub open spec fn standard_identifier_text(v: P3SymmetricVersion) -> Seq<char> {
    "plonky3-zk:v1:"@ + "babybear"@ + ":ext"@ + decimal(4) + ":"@ + "keccak256"@ + ":"@
        + "pf_sponge_25_17_4"@ + ":"@ + "ser_chal32"@ + ":"@ + "mtree_hiding_mmcs"@ + ":"@
        + "ext_mmcs"@ + ":"@ + "radix2_dit_parallel"@ + ":"@ + "hiding_rng"@ + ":log_blowup"@
        + decimal(2) + ":randomizers"@ + decimal(4) + ":queries"@ + decimal(40) + ":pow"@
        + decimal(8) + ":p3sym"@ + version_text(v)
}

impl Plonky3HashIdentifier {
    /// The embedded `p3-symmetric` version.
    pub closed spec fn version_view(&self) -> P3SymmetricVersion {
        self.p3_symmetric
    }

    /// Everything of the rendering before the embedded version.
    pub closed spec fn prefix_view(&self) -> Seq<char> {
        "plonky3-zk:v1:"@ + self.field@ + ":ext"@ + decimal(self.extension_degree as nat) + ":"@
            + self.byte_hash@ + ":"@ + self.sponge@ + ":"@ + self.challenger@ + ":"@
            + self.val_mmcs@ + ":"@ + self.challenge_mmcs@ + ":"@ + self.dft@ + ":"@ + self.rng@
            + ":log_blowup"@ + decimal(self.log_blowup as nat) + ":randomizers"@
            + decimal(self.num_randomizer_cols as nat) + ":queries"@
            + decimal(self.num_queries as nat) + ":pow"@ + decimal(self.query_pow_bits as nat)
    }

    /// The rendering of this identifier with version `v` embedded.
    pub open spec fn rendered_with(&self, v: P3SymmetricVersion) -> Seq<char> {
        self.prefix_view() + ":p3sym"@ + version_text(v)
    }

    /// The rendering of this identifier.
    pub open spec fn rendered(&self) -> Seq<char> {
        self.rendered_with(self.version_view())
    }

    /// The canonical identifier of the pinned backend, embedding the
    /// resolved `p3-symmetric` version.
    pub fn standard() -> (r: Self)
        ensures
            r.version_view() == pinned_version(),
            forall|v: P3SymmetricVersion| #[trigger] r.rendered_with(v) == standard_identifier_text(v),
    {
        let r = Plonky3HashIdentifier {
            field: "babybear",
            extension_degree: BACKEND_EXTENSION_DEGREE,
            byte_hash: "keccak256",
            sponge: "pf_sponge_25_17_4",
            challenger: "ser_chal32",
            val_mmcs: "mtree_hiding_mmcs",
            challenge_mmcs: "ext_mmcs",
            dft: "radix2_dit_parallel",
            rng: "hiding_rng",
            log_blowup: BACKEND_LOG_BLOWUP,
            num_randomizer_cols: BACKEND_NUM_RANDOMIZER_COLS,
            num_queries: BACKEND_NUM_QUERIES,
            query_pow_bits: BACKEND_QUERY_POW_BITS,
            p3_symmetric: pinned_p3_symmetric_version(),
        };
        r
    }

    /// The same identifier with another embedded `p3-symmetric` version.
    pub fn with_p3_symmetric(self, p3_symmetric: P3SymmetricVersion) -> (r: Self)
        ensures
            r.version_view() == p3_symmetric,
            r.prefix_view() == self.prefix_view(),
    {
        Plonky3HashIdentifier { p3_symmetric, ..self }
    }

    /// Renders the identifier as a stable, colon-separated string.
    pub fn render(&self) -> (r: String)
        ensures
            r@ == self.rendered(),
    {
        let mut s = String::new();
        s.append("plonky3-zk:v1:");
        s.append(self.field);
        s.append(":ext");
        push_decimal(&mut s, self.extension_degree as u64);
        s.append(":");
        s.append(self.byte_hash);
        s.append(":");
        s.append(self.sponge);
        s.append(":");
        s.append(self.challenger);
        s.append(":");
        s.append(self.val_mmcs);
        s.append(":");
        s.append(self.challenge_mmcs);
        s.append(":");
        s.append(self.dft);
        s.append(":");
        s.append(self.rng);
        s.append(":log_blowup");
        push_decimal(&mut s, self.log_blowup as u64);
        s.append(":randomizers");
        push_decimal(&mut s, self.num_randomizer_cols as u64);
        s.append(":queries");
        push_decimal(&mut s, self.num_queries as u64);
        s.append(":pow");
        push_decimal(&mut s, self.query_pow_bits as u64);
        s.append(":p3sym");
        self.p3_symmetric.push_text(&mut s);
        assert(s@ =~= self.rendered());
        s
    }

    /// Wraps this identifier's rendering in a backend-neutral [`HashIdentifier`].
    pub fn to_hash_identifier(&self) -> (h: HashIdentifier)
        ensures
            h.suite_view() == self.rendered(),
    {
        HashIdentifier::new(self.render())
    }

    /// The embedded `p3-symmetric` version.
    pub fn p3_symmetric(&self) -> (v: P3SymmetricVersion)
        ensures
            v == self.version_view(),
    {
        self.p3_symmetric
    }
}

impl TranscriptBindable for Plonky3HashIdentifier {
    /// Encodes the rendered identifier under `DOMAIN_HASH_ID`, exactly as
    /// [`HashIdentifier`] encodes a suite name.
    fn to_transcript_binding(&self) -> (b: TranscriptBinding)
        ensures
            b.label_view() == DOMAIN_HASH_ID@,
            b.bytes_view() == hash_identifier_bytes(self.rendered()),
    {
        self.to_hash_identifier().to_transcript_binding()
    }
}

/// Distinct versions have distinct dotted renderings.
pub proof fn lemma_version_text_injective(v1: P3SymmetricVersion, v2: P3SymmetricVersion)
    requires
        version_text(v1) == version_text(v2),
    ensures
        v1 == v2,
{
    reveal_strlit(".");
    assert(!is_digit('.'));
    lemma_decimal_digits(v1.major as nat);
    lemma_decimal_digits(v2.major as nat);
    lemma_decimal_digits(v1.minor as nat);
    lemma_decimal_digits(v2.minor as nat);
    let t1 = decimal(v1.minor as nat) + seq!['.'] + decimal(v1.patch as nat);
    let t2 = decimal(v2.minor as nat) + seq!['.'] + decimal(v2.patch as nat);
    assert(version_text(v1) =~= decimal(v1.major as nat) + seq!['.'] + t1);
    assert(version_text(v2) =~= decimal(v2.major as nat) + seq!['.'] + t2);
    lemma_split_at_separator(decimal(v1.major as nat), t1, decimal(v2.major as nat), t2, '.');
    lemma_split_at_separator(
        decimal(v1.minor as nat),
        decimal(v1.patch as nat),
        decimal(v2.minor as nat),
        decimal(v2.patch as nat),
        '.',
    );
    lemma_decimal_injective(v1.major as nat, v2.major as nat);
    lemma_decimal_injective(v1.minor as nat, v2.minor as nat);
    lemma_decimal_injective(v1.patch as nat, v2.patch as nat);
}

/// The rendered identifier determines the embedded `p3-symmetric` version:
/// the same identifier with two different versions renders differently, so
/// a transcript bound under one resolved stack does not replay under another.
pub proof fn law_identifier_separates_versions(
    id: Plonky3HashIdentifier,
    v1: P3SymmetricVersion,
    v2: P3SymmetricVersion,
)
    requires
        v1 != v2,
    ensures
        id.rendered_with(v1) != id.rendered_with(v2),
{
    let p = id.prefix_view() + ":p3sym"@;
    if id.rendered_with(v1) == id.rendered_with(v2) {
        assert(version_text(v1) =~= id.rendered_with(v1).subrange(p.len() as int, id.rendered_with(v1).len() as int));
        assert(version_text(v2) =~= id.rendered_with(v2).subrange(p.len() as int, id.rendered_with(v2).len() as int));
        lemma_version_text_injective(v1, v2);
    }
}

/// A git source's declared version never decides the advisory gate: two
/// git provenances with the same `(source_url, rev)` pass or fail together,
/// whatever versions they declare.
pub proof fn law_git_version_never_decides(
    v1: P3SymmetricVersion,
    v2: P3SymmetricVersion,
    source_url: &'static str,
    rev: &'static str,
    allowlist: Seq<(&'static str, &'static str)>,
)
    ensures
        provenance_passes(P3SymmetricProvenance::Git { version: v1, source_url, rev }, allowlist)
            == provenance_passes(P3SymmetricProvenance::Git { version: v2, source_url, rev }, allowlist),
{
}

/// While the resolved `p3-symmetric` is below the patched floor, the
/// combined bridge check refuses every profile with the advisory error.
pub proof fn law_unpatched_stack_refuses_every_profile(p: ReferenceHidingFriPcsProfile)
    ensures
        backend_verdict(p) == Err::<(), BackendDriftError>(
            BackendDriftError::UnpatchedSymmetric {
                provenance: pinned_provenance(),
                min_patched: min_patched_version(),
            },
        ),
{
}

} // verus!
