//! The fixed-size on-chain identity of a program or account.
//!
//! Identities are plain 32-byte values. Two identities are singled out by
//! the grading rules: the all-zero default identity (also the base system
//! program's identity) and the placeholder identity shipped in starter
//! templates. A submission whose program still carries either has never
//! been customized, which identity-oriented stages treat as a distinct
//! failure from "program missing".

use vstd::prelude::*;

verus! {

broadcast use vstd::array::group_array_axioms;

/// A 32-byte on-chain public identifier.
#[derive(Clone, Copy, Debug, PartialEq, Eq)]
pub struct Identity {
    pub bytes: [u8; 32],
}

/// The all-zero identity: both the default value of an uninitialized
/// program identity and the identity of the base system program.
pub open spec fn spec_default_identity() -> Seq<u8> {
    Seq::new(32, |i: int| 0u8)
}

/// The identity shipped in the starter template, which a learner is
/// expected to replace with a freshly generated one.
pub open spec fn spec_placeholder_identity() -> Seq<u8> {
    seq![
        0u8, 22u8, 56u8, 83u8, 1u8, 169u8, 204u8, 249u8, 85u8, 208u8, 243u8, 252u8, 169u8, 203u8,
        119u8, 222u8, 73u8, 107u8, 195u8, 204u8, 127u8, 47u8, 100u8, 129u8, 239u8, 125u8, 160u8,
        128u8, 0u8, 0u8, 0u8, 0u8,
    ]
}

impl View for Identity {
    type V = Seq<u8>;

    open spec fn view(&self) -> Seq<u8> {
        self.bytes@
    }
}

impl Identity {
    /// Build an identity from its 32 raw bytes.
    pub fn from_bytes(bytes: [u8; 32]) -> (r: Identity)
        ensures
            r@ == bytes@,
    {
        Identity { bytes }
    }

    /// Byte-for-byte equality of two identities.
    pub fn same_as(&self, other: &Identity) -> (r: bool)
        ensures
            r <==> self@ == other@,
    {
        let mut i: usize = 0;
        while i < 32
            invariant
                i <= 32,
                forall|j: int| 0 <= j < i ==> self.bytes@[j] == other.bytes@[j],
            decreases 32 - i,
        {
            if self.bytes[i] != other.bytes[i] {
                return false;
            }
            i += 1;
        }
        proof {
            assert(self@ =~= other@);
        }
        true
    }

    /// Whether this is the all-zero default identity.
    pub fn is_default(&self) -> (r: bool)
        ensures
            r <==> self@ == spec_default_identity(),
    {
        let mut i: usize = 0;
        while i < 32
            invariant
                i <= 32,
                forall|j: int| 0 <= j < i ==> self.bytes@[j] == 0u8,
            decreases 32 - i,
        {
            if self.bytes[i] != 0u8 {
                proof {
                    assert(self@[i as int] != spec_default_identity()[i as int]);
                }
                return false;
            }
            i += 1;
        }
        proof {
            assert(self@ =~= spec_default_identity());
        }
        true
    }
}

/// The all-zero default identity as a value.
pub fn default_identity() -> (r: Identity)
    ensures
        r@ == spec_default_identity(),
{
    let bytes: [u8; 32] = [0u8; 32];
    proof {
        assert(bytes@ =~= spec_default_identity());
    }
    Identity { bytes }
}

/// The identity of the base system program, which is the all-zero identity.
pub fn system_program_identity() -> (r: Identity)
    ensures
        r@ == spec_default_identity(),
{
    default_identity()
}

/// The placeholder identity shipped in the starter template.
pub fn placeholder_identity() -> (r: Identity)
    ensures
        r@ == spec_placeholder_identity(),
{
    let bytes: [u8; 32] = [
        0u8, 22u8, 56u8, 83u8, 1u8, 169u8, 204u8, 249u8, 85u8, 208u8, 243u8, 252u8, 169u8, 203u8,
        119u8, 222u8, 73u8, 107u8, 195u8, 204u8, 127u8, 47u8, 100u8, 129u8, 239u8, 125u8, 160u8,
        128u8, 0u8, 0u8, 0u8, 0u8,
    ];
    proof {
        assert(bytes@ =~= spec_placeholder_identity());
    }
    Identity { bytes }
}

} // verus!
