//! Deterministic record addresses.
//!
//! A profile lives at the address that the host derives from a fixed label,
//! the owner's key and the program's key.  An address is derived from these
//! and one more byte, the bump; not every bump yields an address that is
//! valid in the host's address space.  The proof of a record's address is
//! the first bump, counting down from 255, that yields a valid one.
//!
//! Creation searches for that bump and stores it in the record.  Every later
//! operation derives the address once more from the stored bump, without a
//! search, and holds the target address against it.
//!
//! Both derivations are the host library's.  The derivation at a given bump
//! is a function of its inputs alone; this module names its result,
//! `address_at`, states the search in terms of it, and decides whether a
//! supplied address and proof agree with either.

use vstd::prelude::*;
use anchor_lang::prelude::Pubkey;
use anchor_lang::solana_program::pubkey::PubkeyError;
use crate::error::TigerTrustError;
use crate::identity::Identity;

verus! {

/// Why the host library derived no address.  Nothing is read from it.
#[verifier::external_type_specification]
#[verifier::external_body]
pub struct ExPubkeyError(anchor_lang::solana_program::pubkey::PubkeyError);

/// An address together with the proof of its derivation.
#[derive(Clone, Copy, Debug, PartialEq, Eq)]
pub struct Derivation {
    pub address: Identity,
    pub bump: u8,
}

/// The label under which profile records are derived: `user_profile` in ASCII.
pub const PROFILE_LABEL: [u8; 12] = [117, 115, 101, 114, 95, 112, 114, 111, 102, 105, 108, 101];

/// The address that the host derives from the seeds `label`, `owner` and the
/// single byte `bump` under `program`, or `None` where these yield no valid
/// address.
pub uninterp spec fn address_at(
    label: Seq<u8>,
    owner: Seq<u8>,
    bump: u8,
    program: Seq<u8>,
) -> Option<Seq<u8>>;

/// The label as a byte string.
pub open spec fn profile_label() -> Seq<u8> {
    seq![117u8, 115, 101, 114, 95, 112, 114, 111, 102, 105, 108, 101]
}

/// The profile address of `owner` under `program` at the proof `bump`.
pub open spec fn profile_address_at(owner: Identity, bump: u8, program: Identity) -> Option<
    Seq<u8>,
> {
    address_at(profile_label(), owner@, bump, program@)
}

/// Whether `found` is the outcome of a search that counts the bump down from
/// 255 to 1 and stops at the first that yields a valid address.
pub open spec fn is_first_valid(
    found: Option<Derivation>,
    label: Seq<u8>,
    owner: Seq<u8>,
    program: Seq<u8>,
) -> bool {
    match found {
        Some(d) => {
            &&& d.bump >= 1
            &&& address_at(label, owner, d.bump, program) == Some(d.address@)
            &&& forall|higher: u8|
                d.bump < higher ==> #[trigger] address_at(label, owner, higher, program) is None
        },
        None => forall|bump: u8|
            bump >= 1 ==> #[trigger] address_at(label, owner, bump, program) is None,
    }
}

/// Whether `address` is the profile address of `owner` under `program` and
/// `bump` is its proof: the address is derived at `bump`, and no higher bump
/// yields an address.
pub open spec fn is_profile_address(
    address: Identity,
    bump: u8,
    owner: Identity,
    program: Identity,
) -> bool {
    is_first_valid(Some(Derivation { address, bump }), profile_label(), owner@, program@)
}

/// The proof under which `address` is the profile address of `owner` under
/// `program`, or `None` where it is not that address.
pub open spec fn profile_proof(address: Identity, owner: Identity, program: Identity) -> Option<
    u8,
> {
    if exists|bump: u8| is_profile_address(address, bump, owner, program) {
        Some(choose|bump: u8| is_profile_address(address, bump, owner, program))
    } else {
        None
    }
}

/// The byte string of an address that may be missing.
pub open spec fn address_view(made: Option<Identity>) -> Option<Seq<u8>> {
    match made {
        Some(address) => Some(address@),
        None => None,
    }
}

/// Whether the supplied proof is the stored one and `address` is the address
/// derived at that proof.
pub open spec fn proof_agrees(
    derived: Option<Seq<u8>>,
    address: Identity,
    supplied: u8,
    stored: u8,
) -> bool {
    supplied == stored && derived == Some(address@)
}

/// Calls `Pubkey::try_find_program_address`, the host library's search for a
/// program address, with the seeds `label` and the bytes of `owner`, under
/// the program `program`.
///
/// The contract claims what the library's source shows of the search: the
/// bump is counted down from 255 to 1, each is tried by the derivation that
/// `Pubkey::create_program_address` makes from the same seeds and that
/// bump, and the first that yields an address is returned with that
/// address; `None` is returned where none does.
#[verifier::external_body]
fn find_program_address(label: &[u8], owner: &Identity, program: &Identity) -> (found: Option<
    Derivation,
>)
    ensures
        is_first_valid(found, label@, owner@, program@),
{
    let program_id = Pubkey::new_from_array(program.bytes);
    match Pubkey::try_find_program_address(&[label, &owner.bytes], &program_id) {
        Some((address, bump)) => Some(
            Derivation { address: Identity { bytes: address.to_bytes() }, bump },
        ),
        None => None,
    }
}

/// Calls `Pubkey::create_program_address` with the seeds `label`, the bytes
/// of `owner` and the single byte `bump`, under the program `program`.
///
/// The contract claims only that whether the call yields an address, and
/// which, is a function of these four values, named `address_at`.
#[verifier::external_body]
fn create_program_address(label: &[u8], owner: &Identity, bump: u8, program: &Identity) -> (made:
    Result<Identity, PubkeyError>)
    ensures
        match made {
            Ok(address) => address_at(label@, owner@, bump, program@) == Some(address@),
            Err(_) => address_at(label@, owner@, bump, program@) is None,
        },
{
    let program_id = Pubkey::new_from_array(program.bytes);
    match Pubkey::create_program_address(&[label, &owner.bytes, &[bump]], &program_id) {
        Ok(address) => Ok(Identity { bytes: address.to_bytes() }),
        Err(e) => Err(e),
    }
}

/// Searches for the address of the profile of `owner` under `program` and
/// for its proof.  The proof is the highest bump from 255 down to 1 at which
/// an address is valid; `None` means that there is no such bump.
pub fn derive_profile_address(owner: &Identity, program: &Identity) -> (found: Option<Derivation>)
    ensures
        match found {
            Some(d) => is_profile_address(d.address, d.bump, *owner, *program),
            None => forall|address: Identity, bump: u8|
                !is_profile_address(address, bump, *owner, *program),
        },
{
    assert(PROFILE_LABEL@ =~= profile_label());
    let found = find_program_address(PROFILE_LABEL.as_slice(), owner, program);
    proof {
        if found is None {
            assert forall|address: Identity, bump: u8|
                !is_profile_address(address, bump, *owner, *program) by {
                if is_profile_address(address, bump, *owner, *program) {
                    assert(address_at(profile_label(), owner@, bump, program@) is None);
                }
            }
        }
    }
    found
}

/// Derives the address of the profile of `owner` under `program` at the
/// proof `bump`, without a search.  `None` means that `bump` yields no valid
/// address.
pub fn profile_address_with(owner: &Identity, bump: u8, program: &Identity) -> (made: Option<
    Identity,
>)
    ensures
        address_view(made) == profile_address_at(*owner, bump, *program),
{
    assert(PROFILE_LABEL@ =~= profile_label());
    match create_program_address(PROFILE_LABEL.as_slice(), owner, bump, program) {
        Ok(address) => Some(address),
        Err(_) => None,
    }
}

/// Checks a target address against the outcome of a search and hands out
/// the proof.  Fails with `AddressMismatch` where nothing was found or the
/// address differs.
pub fn proof_for(found: &Option<Derivation>, address: &Identity) -> (outcome: Result<
    u8,
    TigerTrustError,
>)
    ensures
        match outcome {
            Ok(bump) => *found == Some(Derivation { address: *address, bump }),
            Err(e) => e == TigerTrustError::AddressMismatch && !(found matches Some(d) && d.address
                == *address),
        },
{
    match found {
        Some(d) => {
            if d.address == *address {
                Ok(d.bump)
            } else {
                Err(TigerTrustError::AddressMismatch)
            }
        },
        None => Err(TigerTrustError::AddressMismatch),
    }
}

/// Searches for the profile address of `owner` under `program`, holds the
/// target address against it and hands out the proof.  Fails with
/// `AddressMismatch` where the target is not the profile address of `owner`.
pub fn claim_profile_address(owner: &Identity, address: &Identity, program: &Identity) -> (outcome:
    Result<u8, TigerTrustError>)
    ensures
        match outcome {
            Ok(bump) => profile_proof(*address, *owner, *program) == Some(bump)
                && is_profile_address(*address, bump, *owner, *program),
            Err(e) => e == TigerTrustError::AddressMismatch && profile_proof(
                *address,
                *owner,
                *program,
            ) is None,
        },
{
    let found = derive_profile_address(owner, program);
    let outcome = proof_for(&found, address);
    proof {
        match outcome {
            Ok(bump) => {
                lemma_profile_proof(*address, bump, *owner, *program);
            },
            Err(_) => {
                if let Some(other) = profile_proof(*address, *owner, *program) {
                    law_profile_address_is_unique(
                        *owner,
                        *program,
                        found->Some_0,
                        Derivation { address: *address, bump: other },
                    );
                }
            },
        }
    }
    outcome
}

/// Where an address is the profile address under a proof, that proof is
/// its `profile_proof`.
pub proof fn lemma_profile_proof(address: Identity, bump: u8, owner: Identity, program: Identity)
    requires
        is_profile_address(address, bump, owner, program),
    ensures
        profile_proof(address, owner, program) == Some(bump),
{
    let chosen = choose|other: u8| is_profile_address(address, other, owner, program);
    law_profile_address_is_unique(
        owner,
        program,
        Derivation { address, bump },
        Derivation { address, bump: chosen },
    );
}

/// An owner has at most one profile address under a program, and that
/// address has one proof only: whatever is derived for the same owner and
/// program is the same address with the same proof.
pub proof fn law_profile_address_is_unique(
    owner: Identity,
    program: Identity,
    one: Derivation,
    other: Derivation,
)
    requires
        is_profile_address(one.address, one.bump, owner, program),
        is_profile_address(other.address, other.bump, owner, program),
    ensures
        one == other,
{
    let label = profile_label();
    if one.bump < other.bump {
        assert(address_at(label, owner@, other.bump, program@) is None);
    } else if other.bump < one.bump {
        assert(address_at(label, owner@, one.bump, program@) is None);
    }
    Identity::lemma_view_decides_equality(one.address, other.address);
}

/// Checks a target address and a supplied proof against the proof stored in
/// the record and against the address derived at that proof.  Fails with
/// `AddressMismatch` unless the two proofs are the same and `made` is the
/// target address.
pub fn verify_proof(
    made: &Option<Identity>,
    address: &Identity,
    supplied: u8,
    stored: u8,
) -> (outcome: Result<(), TigerTrustError>)
    ensures
        outcome is Ok <==> supplied == stored && *made == Some(*address),
        outcome is Ok <==> proof_agrees(address_view(*made), *address, supplied, stored),
        outcome is Err ==> outcome == Err::<(), TigerTrustError>(TigerTrustError::AddressMismatch),
{
    proof {
        if let Some(a) = *made {
            Identity::lemma_view_decides_equality(a, *address);
        }
    }
    if supplied != stored {
        return Err(TigerTrustError::AddressMismatch);
    }
    match made {
        Some(a) => {
            if *a == *address {
                Ok(())
            } else {
                Err(TigerTrustError::AddressMismatch)
            }
        },
        None => Err(TigerTrustError::AddressMismatch),
    }
}

} // verus!
