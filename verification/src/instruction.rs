//! Instruction descriptors and the canonical operation discriminator.
//!
//! An instruction names a target program, carries an opaque binary
//! payload, and lists the accounts it touches with their mutability and
//! signer flags. The payload of the canonical "initialize" call starts
//! with a discriminator: the first 8 bytes of a cryptographic digest of a
//! namespaced operation name.

use vstd::prelude::*;
use vstd::string::StringSliceAdditionalSpecFns;

use sha2::{Digest, Sha256};

use crate::identity::Identity;

verus! {

/// A reference to an account an instruction touches.
#[derive(Clone, Copy, Debug)]
pub struct AccountRef {
    /// The referenced account's identity.
    pub id: Identity,
    /// Whether the instruction requires this account's signature.
    pub is_signer: bool,
    /// Whether the account may be mutated during execution.
    pub is_writable: bool,
}

/// An opaque operation descriptor addressed to one program.
#[derive(Debug)]
pub struct Instruction {
    /// The identity of the program that executes the instruction.
    pub program_id: Identity,
    /// The binary payload handed to the program.
    pub data: Vec<u8>,
    /// The accounts the instruction touches, in order.
    pub accounts: Vec<AccountRef>,
}

/// Build an instruction for the lending program from its raw parts.
pub fn create_lending_instruction(
    program_id: Identity,
    data: Vec<u8>,
    accounts: Vec<AccountRef>,
) -> (r: Instruction)
    ensures
        r.program_id == program_id,
        r.data == data,
        r.accounts == accounts,
{
    Instruction { program_id, data, accounts }
}

/// The SHA-256 digest of a byte string, named but not written out: the
/// digest is a function of the input bytes alone.
pub uninterp spec fn sha256_of(data: Seq<u8>) -> Seq<u8>;

/// Relies on sha2's `Sha256`: the digest depends on the input bytes
/// alone and is 32 bytes long.
#[verifier::external_body]
fn sha256(data: &[u8]) -> (r: Vec<u8>)
    ensures
        r@ == sha256_of(data@),
        r@.len() == 32,
{
    let mut hasher = Sha256::new();
    hasher.update(data);
    hasher.finalize().to_vec()
}

/// The discriminator of a namespaced operation name: the first 8 bytes
/// of the SHA-256 digest of the name's bytes.
pub open spec fn spec_discriminator(name: &str) -> Seq<u8> {
    sha256_of(name.spec_bytes()).take(8)
}

/// The payload of the canonical zero-argument "initialize" call.
pub open spec fn spec_initialize_data() -> Seq<u8> {
    spec_discriminator("global:initialize")
}

/// Compute the 8-byte discriminator of a namespaced operation name.
pub fn anchor_discriminator(name: &str) -> (r: Vec<u8>)
    ensures
        r@ == spec_discriminator(name),
        r@.len() == 8,
{
    let mut digest = sha256(name.as_bytes());
    digest.truncate(8);
    proof {
        assert(digest@ =~= spec_discriminator(name));
    }
    digest
}

/// The payload of the canonical "initialize" call: the discriminator of
/// the namespaced initialize operation, with no arguments following.
pub fn build_initialize_data() -> (r: Vec<u8>)
    ensures
        r@ == spec_initialize_data(),
        r@.len() == 8,
{
    anchor_discriminator("global:initialize")
}

} // verus!
