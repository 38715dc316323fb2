//! Declared technique used to achieve hiding in a SHROUD object.
use vstd::prelude::*;
use crate::bytes::{le32, lemma_le32_facts, push_le32, append_bytes};
use vstd::string::StringSliceAdditionalSpecFns;

verus! {

/// Declared technique used to achieve hiding in a SHROUD object.
///
/// `SecurityLevel` records how strong the hiding is; `HidingTechniqueClaim`
/// records how hiding is achieved — the structural mechanism an auditor must
/// verify against the concrete backend. Backends often compose several
/// techniques; `Composite` declares such combinations.
#[derive(Debug, PartialEq, Eq)]
#[non_exhaustive]
pub enum HidingTechniqueClaim {
    /// Random codewords are interleaved with the witness matrix before commitment.
    RandomCodewordInterleaving,
    /// An additive vanishing polynomial mask `R(X)` is applied before the FRI low-degree test.
    AdditiveVanishingMask,
    /// Each quotient chunk is masked by a vanishing-factor random polynomial.
    QuotientChunkRandomization,
    /// Random padding rows are appended to oracle matrices before Merkle commitment.
    RandomRowPadding,
    /// A composition of two techniques applied together.
    Composite(
        /// First technique in the composition.
        Box<HidingTechniqueClaim>,
        /// Second technique in the composition.
        Box<HidingTechniqueClaim>,
    ),
    /// A backend-specific hiding technique not covered by the named variants.
    BackendSpecific(
        /// Human-readable description of the backend-specific technique.
        String,
    ),
}

/// Two claims are the same named (non-composite, non-backend-specific) technique.
pub open spec fn same_named_technique(c: HidingTechniqueClaim, t: HidingTechniqueClaim) -> bool {
    ||| (c is RandomCodewordInterleaving && t is RandomCodewordInterleaving)
    ||| (c is AdditiveVanishingMask && t is AdditiveVanishingMask)
    ||| (c is QuotientChunkRandomization && t is QuotientChunkRandomization)
    ||| (c is RandomRowPadding && t is RandomRowPadding)
}

/// Whether the claim tree `c` contains technique `t`: composites are searched
/// in both branches, backend-specific techniques match by exact description,
/// and every other variant matches its own kind.
pub open spec fn claim_contains(c: HidingTechniqueClaim, t: HidingTechniqueClaim) -> bool
    decreases c,
{
    match c {
        HidingTechniqueClaim::Composite(a, b) => claim_contains(*a, t) || claim_contains(*b, t),
        HidingTechniqueClaim::BackendSpecific(s) => match t {
            HidingTechniqueClaim::BackendSpecific(u) => s@ == u@,
            _ => false,
        },
        _ => same_named_technique(c, t),
    }
}

/// Canonical byte encoding of a claim tree: one tag byte per node, composite
/// children and backend-specific descriptions each prefixed by their length
/// as a 4-byte little-endian count.
pub open spec fn claim_bytes(c: HidingTechniqueClaim) -> Seq<u8>
    decreases c,
{
    match c {
        HidingTechniqueClaim::RandomCodewordInterleaving => seq![0u8],
        HidingTechniqueClaim::AdditiveVanishingMask => seq![1u8],
        HidingTechniqueClaim::QuotientChunkRandomization => seq![2u8],
        HidingTechniqueClaim::RandomRowPadding => seq![3u8],
        HidingTechniqueClaim::Composite(a, b) => seq![4u8] + le32(claim_bytes(*a).len() as u32)
            + claim_bytes(*a) + le32(claim_bytes(*b).len() as u32) + claim_bytes(*b),
        HidingTechniqueClaim::BackendSpecific(s) => seq![5u8] + le32(
            vstd::utf8::encode_utf8(s@).len() as u32,
        ) + vstd::utf8::encode_utf8(s@),
    }
}

/// Human-readable rendering of a claim tree.
pub open spec fn claim_text(c: HidingTechniqueClaim) -> Seq<char>
    decreases c,
{
    match c {
        HidingTechniqueClaim::RandomCodewordInterleaving => "random codeword interleaving"@,
        HidingTechniqueClaim::AdditiveVanishingMask => "additive vanishing mask"@,
        HidingTechniqueClaim::QuotientChunkRandomization => "quotient chunk randomization"@,
        HidingTechniqueClaim::RandomRowPadding => "random row padding"@,
        HidingTechniqueClaim::Composite(a, b) => claim_text(*a) + " + "@ + claim_text(*b),
        HidingTechniqueClaim::BackendSpecific(s) => "backend-specific ("@ + s@ + ")"@,
    }
}

impl HidingTechniqueClaim {
    /// Returns an identical copy of this claim tree.
    pub fn duplicate(&self) -> (r: Self)
        ensures
            r == *self,
        decreases self,
    {
        match self {
            HidingTechniqueClaim::RandomCodewordInterleaving => HidingTechniqueClaim::RandomCodewordInterleaving,
            HidingTechniqueClaim::AdditiveVanishingMask => HidingTechniqueClaim::AdditiveVanishingMask,
            HidingTechniqueClaim::QuotientChunkRandomization => HidingTechniqueClaim::QuotientChunkRandomization,
            HidingTechniqueClaim::RandomRowPadding => HidingTechniqueClaim::RandomRowPadding,
            HidingTechniqueClaim::Composite(a, b) => HidingTechniqueClaim::Composite(
                Box::new(a.duplicate()),
                Box::new(b.duplicate()),
            ),
            HidingTechniqueClaim::BackendSpecific(s) => HidingTechniqueClaim::BackendSpecific(s.clone()),
        }
    }

    /// Whether both claims are the same named technique.
    fn same_named(&self, technique: &Self) -> (r: bool)
        ensures
            r == same_named_technique(*self, *technique),
    {
        match (self, technique) {
            (HidingTechniqueClaim::RandomCodewordInterleaving, HidingTechniqueClaim::RandomCodewordInterleaving) => true,
            (HidingTechniqueClaim::AdditiveVanishingMask, HidingTechniqueClaim::AdditiveVanishingMask) => true,
            (HidingTechniqueClaim::QuotientChunkRandomization, HidingTechniqueClaim::QuotientChunkRandomization) => true,
            (HidingTechniqueClaim::RandomRowPadding, HidingTechniqueClaim::RandomRowPadding) => true,
            _ => false,
        }
    }

    /// Returns `true` if this claim contains the given technique at any depth.
    ///
    /// For `Composite`, recursively checks both branches. For
    /// `BackendSpecific`, compares the description string exactly. For all
    /// other named variants, matches by variant.
    pub fn contains(&self, technique: &Self) -> (r: bool)
        ensures
            r == claim_contains(*self, *technique),
        decreases self,
    {
        match self {
            HidingTechniqueClaim::Composite(a, b) => {
                let in_a = a.contains(technique);
                let in_b = b.contains(technique);
                in_a || in_b
            },
            HidingTechniqueClaim::BackendSpecific(a) => match technique {
                HidingTechniqueClaim::BackendSpecific(b) => *a == *b,
                _ => false,
            },
            _ => self.same_named(technique),
        }
    }

    /// Returns a stable canonical byte encoding of this hiding technique claim tree.
    ///
    /// - `RandomCodewordInterleaving` → `[0]`
    /// - `AdditiveVanishingMask` → `[1]`
    /// - `QuotientChunkRandomization` → `[2]`
    /// - `RandomRowPadding` → `[3]`
    /// - `Composite(a, b)` → `[4] ‖ u32_le(len(a)) ‖ encode(a) ‖ u32_le(len(b)) ‖ encode(b)`
    /// - `BackendSpecific(s)` → `[5] ‖ u32_le(len(s)) ‖ s.as_bytes()`
    pub fn to_canonical_bytes(&self) -> (r: Vec<u8>)
        ensures
            r@ == claim_bytes(*self),
        decreases self,
    {
        match self {
            HidingTechniqueClaim::RandomCodewordInterleaving => {
                let r = vec![0u8];
                assert(r@ =~= seq![0u8]);
                r
            },
            HidingTechniqueClaim::AdditiveVanishingMask => {
                let r = vec![1u8];
                assert(r@ =~= seq![1u8]);
                r
            },
            HidingTechniqueClaim::QuotientChunkRandomization => {
                let r = vec![2u8];
                assert(r@ =~= seq![2u8]);
                r
            },
            HidingTechniqueClaim::RandomRowPadding => {
                let r = vec![3u8];
                assert(r@ =~= seq![3u8]);
                r
            },
            HidingTechniqueClaim::Composite(a, b) => {
                let a_bytes = a.to_canonical_bytes();
                let b_bytes = b.to_canonical_bytes();
                let mut out = vec![4u8];
                push_le32(&mut out, a_bytes.len() as u32);
                append_bytes(&mut out, a_bytes.as_slice());
                push_le32(&mut out, b_bytes.len() as u32);
                append_bytes(&mut out, b_bytes.as_slice());
                assert(out@ =~= claim_bytes(*self));
                out
            },
            HidingTechniqueClaim::BackendSpecific(s) => {
                let s_bytes = s.as_str().as_bytes();
                let mut out = vec![5u8];
                push_le32(&mut out, s_bytes.len() as u32);
                append_bytes(&mut out, s_bytes);
                assert(out@ =~= claim_bytes(*self));
                out
            },
        }
    }

    /// Appends the human-readable rendering of this claim to `out`.
    fn push_text(&self, out: &mut String)
        ensures
            final(out)@ == old(out)@ + claim_text(*self),
        decreases self,
    {
        match self {
            HidingTechniqueClaim::RandomCodewordInterleaving => {
                out.append("random codeword interleaving");
            },
            HidingTechniqueClaim::AdditiveVanishingMask => {
                out.append("additive vanishing mask");
            },
            HidingTechniqueClaim::QuotientChunkRandomization => {
                out.append("quotient chunk randomization");
            },
            HidingTechniqueClaim::RandomRowPadding => {
                out.append("random row padding");
            },
            HidingTechniqueClaim::Composite(a, b) => {
                a.push_text(out);
                out.append(" + ");
                b.push_text(out);
                assert(out@ =~= old(out)@ + claim_text(*self));
            },
            HidingTechniqueClaim::BackendSpecific(desc) => {
                out.append("backend-specific (");
                out.append(desc.as_str());
                out.append(")");
                assert(out@ =~= old(out)@ + claim_text(*self));
            },
        }
    }

    /// Human-readable description of this claim tree.
    pub fn message(&self) -> (r: String)
        ensures
            r@ == claim_text(*self),
    {
        let mut s = String::new();
        self.push_text(&mut s);
        assert(s@ =~= claim_text(*self));
        s
    }
}

impl Clone for HidingTechniqueClaim {
    fn clone(&self) -> (r: Self)
        ensures
            r == *self,
    {
        self.duplicate()
    }
}

/// Every length prefix in the claim's encoding fits in the 4-byte count:
/// each composite child's encoding and each backend-specific description is
/// shorter than 2^32 bytes.
pub open spec fn claim_encodable(c: HidingTechniqueClaim) -> bool
    decreases c,
{
    match c {
        HidingTechniqueClaim::Composite(a, b) => claim_bytes(*a).len() < 0x1_0000_0000
            && claim_bytes(*b).len() < 0x1_0000_0000 && claim_encodable(*a) && claim_encodable(*b),
        HidingTechniqueClaim::BackendSpecific(s) => vstd::utf8::encode_utf8(s@).len() < 0x1_0000_0000,
        _ => true,
    }
}

/// The mathematical content of a claim: its tree of techniques, with each
/// backend-specific description as its characters.
pub enum ClaimTree {
    /// See [`HidingTechniqueClaim::RandomCodewordInterleaving`].
    RandomCodewordInterleaving,
    /// See [`HidingTechniqueClaim::AdditiveVanishingMask`].
    AdditiveVanishingMask,
    /// See [`HidingTechniqueClaim::QuotientChunkRandomization`].
    QuotientChunkRandomization,
    /// See [`HidingTechniqueClaim::RandomRowPadding`].
    RandomRowPadding,
    /// A composition of two technique trees.
    Composite(Box<ClaimTree>, Box<ClaimTree>),
    /// A backend-specific technique, by its description's characters.
    BackendSpecific(Seq<char>),
}

/// The tree of `c`.
pub open spec fn claim_tree(c: HidingTechniqueClaim) -> ClaimTree
    decreases c,
{
    match c {
        HidingTechniqueClaim::RandomCodewordInterleaving => ClaimTree::RandomCodewordInterleaving,
        HidingTechniqueClaim::AdditiveVanishingMask => ClaimTree::AdditiveVanishingMask,
        HidingTechniqueClaim::QuotientChunkRandomization => ClaimTree::QuotientChunkRandomization,
        HidingTechniqueClaim::RandomRowPadding => ClaimTree::RandomRowPadding,
        HidingTechniqueClaim::Composite(a, b) => ClaimTree::Composite(
            Box::new(claim_tree(*a)),
            Box::new(claim_tree(*b)),
        ),
        HidingTechniqueClaim::BackendSpecific(s) => ClaimTree::BackendSpecific(s@),
    }
}

impl View for HidingTechniqueClaim {
    type V = ClaimTree;

    open spec fn view(&self) -> ClaimTree {
        claim_tree(*self)
    }
}

/// The canonical encoding of claim trees is injective: two claims whose
/// length prefixes fit in 4 bytes and whose encodings are equal have the
/// same view (same tree, same techniques, same descriptions).
pub proof fn law_claim_bytes_injective(x: HidingTechniqueClaim, y: HidingTechniqueClaim)
    requires
        claim_encodable(x),
        claim_encodable(y),
        claim_bytes(x) == claim_bytes(y),
    ensures
        x@ == y@,
    decreases x,
{
    let e = claim_bytes(x);
    match x {
        HidingTechniqueClaim::Composite(a, b) => {
            match y {
                HidingTechniqueClaim::Composite(c, d) => {
                    let ea = claim_bytes(*a);
                    let eb = claim_bytes(*b);
                    let ec = claim_bytes(*c);
                    let ed = claim_bytes(*d);
                    lemma_le32_facts(ea.len() as u32, ec.len() as u32);
                    lemma_le32_facts(eb.len() as u32, ed.len() as u32);
                    lemma_le32_facts(ec.len() as u32, ea.len() as u32);
                    lemma_le32_facts(ed.len() as u32, eb.len() as u32);
                    let ex = seq![4u8] + le32(ea.len() as u32) + ea + le32(eb.len() as u32) + eb;
                    let ey = seq![4u8] + le32(ec.len() as u32) + ec + le32(ed.len() as u32) + ed;
                    assert(ex =~= e);
                    assert(ey =~= e);
                    assert(ex.subrange(1, 5) =~= le32(ea.len() as u32));
                    assert(ey.subrange(1, 5) =~= le32(ec.len() as u32));
                    assert(ea.len() == ec.len());
                    let la = ea.len() as int;
                    assert(ex.subrange(5, 5 + la) =~= ea);
                    assert(ey.subrange(5, 5 + la) =~= ec);
                    assert(ex.subrange(5 + la, 9 + la) =~= le32(eb.len() as u32));
                    assert(ey.subrange(5 + la, 9 + la) =~= le32(ed.len() as u32));
                    assert(eb.len() == ed.len());
                    assert(ex.subrange(9 + la, ex.len() as int) =~= eb);
                    assert(ey.subrange(9 + la, ey.len() as int) =~= ed);
                    law_claim_bytes_injective(*a, *c);
                    law_claim_bytes_injective(*b, *d);
                },
                HidingTechniqueClaim::BackendSpecific(t) => {
                    assert(e[0] == 4u8);
                    assert(claim_bytes(y)[0] == 5u8);
                },
                _ => {
                    assert(e[0] == 4u8);
                    assert(claim_bytes(y)[0] < 4u8);
                },
            }
        },
        HidingTechniqueClaim::BackendSpecific(s) => {
            match y {
                HidingTechniqueClaim::BackendSpecific(t) => {
                    broadcast use vstd::utf8::encode_utf8_decode_utf8;

                    let es = vstd::utf8::encode_utf8(s@);
                    let et = vstd::utf8::encode_utf8(t@);
                    lemma_le32_facts(es.len() as u32, et.len() as u32);
                    lemma_le32_facts(et.len() as u32, es.len() as u32);
                    let ex = seq![5u8] + le32(es.len() as u32) + es;
                    let ey = seq![5u8] + le32(et.len() as u32) + et;
                    assert(ex =~= e);
                    assert(ey =~= e);
                    assert(ex.subrange(5, ex.len() as int) =~= es);
                    assert(ey.subrange(5, ey.len() as int) =~= et);
                    assert(vstd::utf8::decode_utf8(es) == s@);
                    assert(vstd::utf8::decode_utf8(et) == t@);
                },
                HidingTechniqueClaim::Composite(c, d) => {
                    assert(e[0] == 5u8);
                    assert(claim_bytes(y)[0] == 4u8);
                },
                _ => {
                    assert(e[0] == 5u8);
                    assert(claim_bytes(y)[0] < 4u8);
                },
            }
        },
        _ => {
            assert(e.len() == 1 ==> claim_bytes(y).len() == 1);
            match y {
                HidingTechniqueClaim::Composite(c, d) => {
                    assert(claim_bytes(y)[0] == 4u8);
                },
                HidingTechniqueClaim::BackendSpecific(t) => {
                    assert(claim_bytes(y)[0] == 5u8);
                },
                _ => {},
            }
        },
    }
}

} // verus!
