//! Deterministic, domain-separated sub-account derivation.
//!
//! A sub-account is the SHA-256 digest of a domain-separation byte, a fixed
//! domain tag, the minter's binary identity, the big-endian nonce and the
//! UTF-8 bytes of a string discriminator. The same inputs always derive the
//! same sub-account, which is what makes deposit addresses reusable across
//! requests and restarts.

use vstd::prelude::*;
use vstd::string::{StrSliceExecFns, StringExecFns, StringSliceAdditionalSpecFns};

use crate::bytes::{append_bytes, all_bytes, spec_all_bytes, spec_u64_be_bytes, u64_be_bytes};
use crate::errors::{ErrorCode, UpdateBalanceError};
use crate::types::{Account, Subaccount};

verus! {

/// The SHA-256 digest of the given bytes.
pub uninterp spec fn spec_sha256(input: Seq<u8>) -> Seq<u8>;

/// Relies on `sha2::Sha256::digest`: the 32-byte SHA-256 digest, a function
/// of the input bytes alone.
#[verifier::external_body]
fn sha256(input: &Vec<u8>) -> (r: Vec<u8>)
    ensures
        r@ == spec_sha256(input@),
        r@.len() == 32,
{
    let digest = <sha2::Sha256 as sha2::Digest>::digest(input.as_slice());
    digest.to_vec()
}

/// The preimage hashed to derive a sub-account: domain-separation byte, the
/// domain tag, the minter identity, the big-endian nonce and the
/// discriminator bytes.
pub open spec fn spec_subaccount_preimage(minter: Seq<u8>, nonce: u64, ssi_bytes: Seq<u8>) -> Seq<
    u8,
> {
    seq![5u8] + "syron".spec_bytes() + minter + spec_u64_be_bytes(nonce) + ssi_bytes
}

/// The sub-account derived for the given minter identity, nonce and
/// discriminator bytes.
pub open spec fn spec_subaccount(minter: Seq<u8>, nonce: u64, ssi_bytes: Seq<u8>) -> Seq<u8> {
    spec_sha256(spec_subaccount_preimage(minter, nonce, ssi_bytes))
}

/// Computes the sub-account of the minter for a given nonce and
/// self-sovereign identity.
pub fn compute_subaccount(minter: &Vec<u8>, nonce: u64, ssi: &str) -> (r: Subaccount)
    ensures
        r@ == spec_subaccount(minter@, nonce, ssi.spec_bytes()),
        r@.len() == 32,
{
    let domain: Vec<u8> = "syron".as_bytes_vec();
    let mut preimage: Vec<u8> = Vec::new();
    preimage.push(5u8);
    append_bytes(&mut preimage, &domain);
    append_bytes(&mut preimage, minter);
    let nonce_bytes = u64_be_bytes(nonce);
    append_bytes(&mut preimage, &nonce_bytes);
    let ssi_bytes = ssi.as_bytes_vec();
    append_bytes(&mut preimage, &ssi_bytes);
    proof {
        assert(preimage@ =~= spec_subaccount_preimage(minter@, nonce, ssi.spec_bytes()));
    }
    sha256(&preimage)
}

/// Law: derivation is deterministic. Two derivations from the same owner
/// identity, nonce and discriminator yield byte-identical sub-accounts.
pub proof fn lemma_derivation_deterministic(
    minter: Seq<u8>,
    nonce: u64,
    ssi_bytes: Seq<u8>,
    r1: Seq<u8>,
    r2: Seq<u8>,
)
    requires
        r1 == spec_subaccount(minter, nonce, ssi_bytes),
        r2 == spec_subaccount(minter, nonce, ssi_bytes),
    ensures
        r1 == r2,
{
}

/// Law: distinct nonces give distinct derivation preimages for the same owner
/// and discriminator, so no two roles of one identity share a preimage.
/// (Distinctness of the digests themselves is collision resistance of the
/// hash, which is assumed, not proved.)
pub proof fn lemma_preimage_distinct_by_nonce(
    minter: Seq<u8>,
    nonce1: u64,
    nonce2: u64,
    ssi_bytes: Seq<u8>,
)
    requires
        nonce1 != nonce2,
    ensures
        spec_subaccount_preimage(minter, nonce1, ssi_bytes) != spec_subaccount_preimage(
            minter,
            nonce2,
            ssi_bytes,
        ),
{
    let p1 = spec_subaccount_preimage(minter, nonce1, ssi_bytes);
    let p2 = spec_subaccount_preimage(minter, nonce2, ssi_bytes);
    let off = 1 + "syron".spec_bytes().len() + minter.len();
    assert(spec_u64_be_bytes(nonce1) != spec_u64_be_bytes(nonce2)) by {
        let b1 = spec_u64_be_bytes(nonce1);
        let b2 = spec_u64_be_bytes(nonce2);
        if b1 == b2 {
            assert(b1[0] == b2[0] && b1[1] == b2[1] && b1[2] == b2[2] && b1[3] == b2[3] && b1[4]
                == b2[4] && b1[5] == b2[5] && b1[6] == b2[6] && b1[7] == b2[7]);
            assert(nonce1 == nonce2) by (bit_vector)
                requires
                    (nonce1 >> 56) as u8 == (nonce2 >> 56) as u8,
                    (nonce1 >> 48) as u8 == (nonce2 >> 48) as u8,
                    (nonce1 >> 40) as u8 == (nonce2 >> 40) as u8,
                    (nonce1 >> 32) as u8 == (nonce2 >> 32) as u8,
                    (nonce1 >> 24) as u8 == (nonce2 >> 24) as u8,
                    (nonce1 >> 16) as u8 == (nonce2 >> 16) as u8,
                    (nonce1 >> 8) as u8 == (nonce2 >> 8) as u8,
                    nonce1 as u8 == nonce2 as u8,
            ;
        }
    }
    let b1 = spec_u64_be_bytes(nonce1);
    let b2 = spec_u64_be_bytes(nonce2);
    assert(exists|k: int| 0 <= k < 8 && b1[k] != b2[k]) by {
        if forall|k: int| 0 <= k < 8 ==> b1[k] == b2[k] {
            assert(b1 =~= b2);
        }
    }
    let k = choose|k: int| 0 <= k < 8 && b1[k] != b2[k];
    assert(p1[off + k] == b1[k]);
    assert(p2[off + k] == b2[k]);
}

/// Builds the withdrawal account of the minter: the account under the
/// sub-account derived with nonce zero and the empty discriminator. The
/// derived sub-account colliding with the ledger's reserved all-zero default
/// sub-account is a fatal configuration error and is reported, never
/// silently substituted.
pub fn get_withdrawal_account(minter: &Vec<u8>) -> (r: Result<Account, UpdateBalanceError>)
    ensures
        match r {
            Ok(a) => {
                &&& !spec_all_bytes(spec_subaccount(minter@, 0, "".spec_bytes()), 0u8)
                &&& a@.owner == minter@
                &&& a@.subaccount == Some(spec_subaccount(minter@, 0, "".spec_bytes()))
            },
            Err(e) => {
                &&& spec_all_bytes(spec_subaccount(minter@, 0, "".spec_bytes()), 0u8)
                &&& e matches UpdateBalanceError::GenericError { error_code, .. } && error_code
                    == ErrorCode::ConfigurationError.spec_code()
            },
        },
{
    let subaccount = compute_subaccount(minter, 0, "");
    if all_bytes(&subaccount, 0u8) {
        return Err(
            UpdateBalanceError::GenericError {
                error_code: ErrorCode::ConfigurationError.code(),
                error_message: String::from_str(
                    "derived sub-account collides with the default sub-account",
                ),
            },
        );
    }
    Ok(Account { owner: minter.clone(), subaccount: Some(subaccount) })
}

} // verus!
