//! The five operations as a caller submits them.
//!
//! An operation names a target address and comes from a caller identity that
//! the host has authenticated.  The guard decides first, then the target
//! address and the proof are held against the derivation for the owner, and
//! only then is the record's arithmetic applied.  Whatever fails, the target
//! is left as it was.

use vstd::prelude::*;
use crate::address::{
    claim_profile_address, is_profile_address, lemma_profile_proof, profile_address_at,
    profile_address_with, profile_proof, proof_agrees, verify_proof,
};
use crate::error::TigerTrustError;
use crate::guard::{authorize, verdict, Operation};
use crate::identity::Identity;
use crate::profile::{UserProfile, BASE_SCORE, MAX_SCORE};
use crate::tier::Tier;

verus! {

/// What is fixed for all profiles of one deployment.
#[derive(Clone, Copy, Debug, PartialEq, Eq)]
pub struct Deployment {
    /// The program under which record addresses are derived.
    pub program_id: Identity,
    /// The one identity that may update scores.
    pub authority: Identity,
}

/// What a caller hands to `initialize_user_profile`.
#[derive(Clone, Copy, Debug, PartialEq, Eq)]
pub struct InitializeUserProfile {
    /// The caller, who becomes the owner.
    pub user: Identity,
    /// The address at which the record is to be created.
    pub address: Identity,
    /// What the target address holds.
    pub user_profile: Option<UserProfile>,
}

/// What a caller hands to `update_tiger_score`.
#[derive(Clone, Copy, Debug, PartialEq, Eq)]
pub struct UpdateTigerScore {
    /// The caller.
    pub authority: Identity,
    /// The address of the record.
    pub address: Identity,
    /// The proof of the address, as handed out at creation.
    pub bump: u8,
    /// What the target address holds.
    pub user_profile: Option<UserProfile>,
}

/// What a caller hands to the operations that belong to the owner.
#[derive(Clone, Copy, Debug, PartialEq, Eq)]
pub struct UpdateUserProfile {
    /// The caller.
    pub user: Identity,
    /// The address of the record.
    pub address: Identity,
    /// The proof of the address, as handed out at creation.
    pub bump: u8,
    /// What the target address holds.
    pub user_profile: Option<UserProfile>,
}

/// The record that a creation request yields, or why it is rejected: the
/// target must be empty, and it must be the profile address of the caller.
pub open spec fn creation(
    deployment: Deployment,
    ctx: InitializeUserProfile,
    human_verified: bool,
    now: i64,
) -> Result<UserProfile, TigerTrustError> {
    match verdict(Operation::Initialize, ctx.user, deployment.authority, ctx.user_profile) {
        Err(e) => Err(e),
        Ok(_) => match profile_proof(ctx.address, ctx.user, deployment.program_id) {
            Some(bump) => Ok(UserProfile::fresh(ctx.user, bump, human_verified, now)),
            None => Err(TigerTrustError::AddressMismatch),
        },
    }
}

/// The record on which `op` may proceed, or why the request is rejected
/// before any arithmetic.  A creation request is never admitted here: it
/// has its own path, `creation`.
pub open spec fn admitted(
    deployment: Deployment,
    op: Operation,
    caller: Identity,
    address: Identity,
    bump: u8,
    record: Option<UserProfile>,
) -> Result<UserProfile, TigerTrustError> {
    match verdict(op, caller, deployment.authority, record) {
        Err(e) => Err(e),
        Ok(_) => match record {
            None => Err(TigerTrustError::ProfileNotFound),
            Some(profile) => if proof_agrees(
                profile_address_at(profile.wallet, profile.bump, deployment.program_id),
                address,
                bump,
                profile.bump,
            ) {
                Ok(profile)
            } else {
                Err(TigerTrustError::AddressMismatch)
            },
        },
    }
}

/// Runs the guard and the address check for an operation on an existing
/// record, and hands out the record on which the operation may proceed.
pub fn screen_request(
    deployment: &Deployment,
    op: Operation,
    caller: &Identity,
    address: &Identity,
    bump: u8,
    record: &Option<UserProfile>,
) -> (outcome: Result<UserProfile, TigerTrustError>)
    ensures
        outcome == admitted(*deployment, op, *caller, *address, bump, *record),
{
    authorize(op, caller, &deployment.authority, record)?;
    match record {
        None => Err(TigerTrustError::ProfileNotFound),
        Some(profile) => {
            let made = profile_address_with(&profile.wallet, profile.bump, &deployment.program_id);
            verify_proof(&made, address, bump, profile.bump)?;
            Ok(*profile)
        },
    }
}

/// Creates the profile of the caller at the target address and hands out
/// the proof of that address.
///
/// Fails with `ProfileAlreadyExists` where the target holds a record, and
/// with `AddressMismatch` where the target is not the profile address of the
/// caller.  The new record has the base score, the silver tier, no history,
/// and both timestamps at `now`.
pub fn initialize_user_profile(
    deployment: &Deployment,
    ctx: &mut InitializeUserProfile,
    human_verified: bool,
    now: i64,
) -> (outcome: Result<u8, TigerTrustError>)
    ensures
        match creation(*deployment, *old(ctx), human_verified, now) {
            Ok(profile) => outcome == Ok::<u8, TigerTrustError>(profile.bump) && *final(ctx) == (
            InitializeUserProfile { user_profile: Some(profile), ..*old(ctx) }),
            Err(e) => outcome == Err::<u8, TigerTrustError>(e) && *final(ctx) == *old(ctx),
        },
        old(ctx).user_profile is Some ==> outcome == Err::<u8, TigerTrustError>(
            TigerTrustError::ProfileAlreadyExists,
        ),
        outcome matches Ok(bump) ==> is_profile_address(
            old(ctx).address,
            bump,
            old(ctx).user,
            deployment.program_id,
        ) && final(ctx).user_profile == Some(
            UserProfile::fresh(old(ctx).user, bump, human_verified, now),
        ),
        outcome is Ok ==> (final(ctx).user_profile matches Some(p) && p.wallet == old(ctx).user
            && p.tiger_score == BASE_SCORE && p.tier == Tier::Silver && p.total_loans == 0
            && p.successful_repayments == 0 && p.defaults == 0 && p.total_borrowed == 0
            && p.total_repaid == 0 && p.outstanding_debt == 0 && p.wf()),
{
    authorize(Operation::Initialize, &ctx.user, &deployment.authority, &ctx.user_profile)?;
    let bump = claim_profile_address(&ctx.user, &ctx.address, &deployment.program_id)?;
    ctx.user_profile = Some(UserProfile::initialize(ctx.user, bump, human_verified, now));
    Ok(bump)
}

/// Sets score and tier of the target record on behalf of the authority.
///
/// Fails with `Unauthorized` unless the caller is the deployment's
/// authority, with `ProfileNotFound` on an empty target, with
/// `AddressMismatch` where address or proof disagree with the derivation for
/// the record's owner, and with `InvalidScore` where `new_score` exceeds the
/// maximum.  The tier is stored as supplied.
pub fn update_tiger_score(
    deployment: &Deployment,
    ctx: &mut UpdateTigerScore,
    new_score: u16,
    new_tier: Tier,
    now: i64,
) -> (outcome: Result<(), TigerTrustError>)
    ensures
        match admitted(
            *deployment,
            Operation::UpdateScore,
            old(ctx).authority,
            old(ctx).address,
            old(ctx).bump,
            old(ctx).user_profile,
        ) {
            Err(e) => outcome == Err::<(), TigerTrustError>(e) && *final(ctx) == *old(ctx),
            Ok(profile) => match profile.with_score(new_score, new_tier, now) {
                Err(e) => outcome == Err::<(), TigerTrustError>(e) && *final(ctx) == *old(ctx),
                Ok(next) => outcome is Ok && *final(ctx) == (UpdateTigerScore {
                    user_profile: Some(next),
                    ..*old(ctx)
                }),
            },
        },
        old(ctx).authority != deployment.authority ==> outcome == Err::<(), TigerTrustError>(
            TigerTrustError::Unauthorized,
        ),
        outcome is Ok ==> new_score <= MAX_SCORE && (final(ctx).user_profile matches Some(p)
            && p.tiger_score == new_score && p.tier == new_tier && p.last_score_update == now
            && p.extends(old(ctx).user_profile->Some_0)),
{
    let mut profile = screen_request(
        deployment,
        Operation::UpdateScore,
        &ctx.authority,
        &ctx.address,
        ctx.bump,
        &ctx.user_profile,
    )?;
    profile.update_score(new_score, new_tier, now)?;
    ctx.user_profile = Some(profile);
    Ok(())
}

/// Records a loan of `amount` on behalf of the owner.
///
/// Fails with `ProfileNotFound` on an empty target, with `Unauthorized`
/// unless the caller is the record's owner, with `AddressMismatch` where
/// address or proof disagree with the derivation for the owner, and with
/// `Overflow` where the loan counter, the borrowed total or the open debt
/// would leave its integer range.
pub fn record_loan(deployment: &Deployment, ctx: &mut UpdateUserProfile, amount: u64) -> (outcome:
    Result<(), TigerTrustError>)
    ensures
        match admitted(
            *deployment,
            Operation::RecordLoan,
            old(ctx).user,
            old(ctx).address,
            old(ctx).bump,
            old(ctx).user_profile,
        ) {
            Err(e) => outcome == Err::<(), TigerTrustError>(e) && *final(ctx) == *old(ctx),
            Ok(profile) => match profile.with_loan(amount) {
                Err(e) => outcome == Err::<(), TigerTrustError>(e) && *final(ctx) == *old(ctx),
                Ok(next) => outcome is Ok && *final(ctx) == (UpdateUserProfile {
                    user_profile: Some(next),
                    ..*old(ctx)
                }),
            },
        },
        old(ctx).user_profile matches Some(p) && p.wallet != old(ctx).user ==> outcome == Err::<
            (),
            TigerTrustError,
        >(TigerTrustError::Unauthorized),
        outcome is Ok ==> (final(ctx).user_profile matches Some(p) && p.extends(
            old(ctx).user_profile->Some_0,
        )),
{
    let mut profile = screen_request(
        deployment,
        Operation::RecordLoan,
        &ctx.user,
        &ctx.address,
        ctx.bump,
        &ctx.user_profile,
    )?;
    profile.record_loan(amount)?;
    ctx.user_profile = Some(profile);
    Ok(())
}

/// Records a repayment of `amount`, or a default where `is_default` is set,
/// on behalf of the owner.
///
/// Fails with `ProfileNotFound` on an empty target, with `Unauthorized`
/// unless the caller is the record's owner, with `AddressMismatch` where
/// address or proof disagree with the derivation for the owner, and with
/// `Overflow` where the counter or the repaid total would leave its integer
/// range.  The open debt is reduced by `amount` and stops at zero.
pub fn record_repayment(
    deployment: &Deployment,
    ctx: &mut UpdateUserProfile,
    amount: u64,
    is_default: bool,
) -> (outcome: Result<(), TigerTrustError>)
    ensures
        match admitted(
            *deployment,
            Operation::RecordRepayment,
            old(ctx).user,
            old(ctx).address,
            old(ctx).bump,
            old(ctx).user_profile,
        ) {
            Err(e) => outcome == Err::<(), TigerTrustError>(e) && *final(ctx) == *old(ctx),
            Ok(profile) => match profile.with_repayment(amount, is_default) {
                Err(e) => outcome == Err::<(), TigerTrustError>(e) && *final(ctx) == *old(ctx),
                Ok(next) => outcome is Ok && *final(ctx) == (UpdateUserProfile {
                    user_profile: Some(next),
                    ..*old(ctx)
                }),
            },
        },
        old(ctx).user_profile matches Some(p) && p.wallet != old(ctx).user ==> outcome == Err::<
            (),
            TigerTrustError,
        >(TigerTrustError::Unauthorized),
        outcome is Ok ==> (final(ctx).user_profile matches Some(p) && p.extends(
            old(ctx).user_profile->Some_0,
        )),
{
    let mut profile = screen_request(
        deployment,
        Operation::RecordRepayment,
        &ctx.user,
        &ctx.address,
        ctx.bump,
        &ctx.user_profile,
    )?;
    profile.record_repayment(amount, is_default)?;
    ctx.user_profile = Some(profile);
    Ok(())
}

/// Sets the verification flag on behalf of the owner.
///
/// Fails with `ProfileNotFound` on an empty target, with `Unauthorized`
/// unless the caller is the record's owner, and with `AddressMismatch` where
/// address or proof disagree with the derivation for the owner.  No other
/// field changes.
pub fn update_human_verification(
    deployment: &Deployment,
    ctx: &mut UpdateUserProfile,
    verified: bool,
) -> (outcome: Result<(), TigerTrustError>)
    ensures
        match admitted(
            *deployment,
            Operation::UpdateVerification,
            old(ctx).user,
            old(ctx).address,
            old(ctx).bump,
            old(ctx).user_profile,
        ) {
            Err(e) => outcome == Err::<(), TigerTrustError>(e) && *final(ctx) == *old(ctx),
            Ok(profile) => outcome is Ok && *final(ctx) == (UpdateUserProfile {
                user_profile: Some(profile.with_verification(verified)),
                ..*old(ctx)
            }),
        },
        old(ctx).user_profile matches Some(p) && p.wallet != old(ctx).user ==> outcome == Err::<
            (),
            TigerTrustError,
        >(TigerTrustError::Unauthorized),
{
    let mut profile = screen_request(
        deployment,
        Operation::UpdateVerification,
        &ctx.user,
        &ctx.address,
        ctx.bump,
        &ctx.user_profile,
    )?;
    profile.update_verification(verified);
    ctx.user_profile = Some(profile);
    Ok(())
}

/// A record that stands at the profile address of its owner and holds the
/// proof of that address is admitted to every operation that the owner
/// submits there with that proof, and to a score update that the authority
/// submits there.
pub proof fn law_profile_at_its_address_is_admitted(
    deployment: Deployment,
    address: Identity,
    record: UserProfile,
    op: Operation,
)
    requires
        is_profile_address(address, record.bump, record.wallet, deployment.program_id),
        op != Operation::Initialize,
    ensures
        profile_proof(address, record.wallet, deployment.program_id) == Some(record.bump),
        admitted(
            deployment,
            op,
            if op == Operation::UpdateScore {
                deployment.authority
            } else {
                record.wallet
            },
            address,
            record.bump,
            Some(record),
        ) == Ok::<UserProfile, TigerTrustError>(record),
{
    lemma_profile_proof(address, record.bump, record.wallet, deployment.program_id);
}

/// What creation yields stands at the profile address of its owner and
/// holds the proof of that address.
pub proof fn law_creation_yields_profile_at_its_address(
    deployment: Deployment,
    ctx: InitializeUserProfile,
    human_verified: bool,
    now: i64,
)
    requires
        creation(deployment, ctx, human_verified, now) is Ok,
    ensures
        ({
            let record = creation(deployment, ctx, human_verified, now)->Ok_0;
            &&& record.wallet == ctx.user
            &&& is_profile_address(ctx.address, record.bump, record.wallet, deployment.program_id)
        }),
{
}

/// Admission depends on the record only through its owner and its proof,
/// which no operation changes: where a record is admitted, every later state
/// of it is admitted to the same request.
pub proof fn law_admission_outlives_steps(
    deployment: Deployment,
    op: Operation,
    caller: Identity,
    address: Identity,
    bump: u8,
    record: UserProfile,
    later: UserProfile,
)
    requires
        op != Operation::Initialize,
        admitted(deployment, op, caller, address, bump, Some(record)) is Ok,
        later.extends(record),
    ensures
        admitted(deployment, op, caller, address, bump, Some(later)) == Ok::<
            UserProfile,
            TigerTrustError,
        >(later),
{
}

} // verus!
