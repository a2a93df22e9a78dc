//! Who may invoke which operation.
//!
//! Creation is invoked by the owner itself, so the caller becomes the owner
//! and only the target's emptiness is checked.  A score update belongs to the
//! authority, a single identity fixed by the deployment.  The other three
//! operations belong to the owner that the record names.
//!
//! The role is checked as soon as it can be: before the record is looked at
//! for a score update, after it for the operations whose required caller the
//! record itself names.

use vstd::prelude::*;
use crate::error::TigerTrustError;
use crate::identity::Identity;
use crate::profile::UserProfile;

verus! {

/// The operations on a profile.
#[derive(Clone, Copy, Debug, PartialEq, Eq, Structural)]
pub enum Operation {
    Initialize,
    UpdateScore,
    RecordLoan,
    RecordRepayment,
    UpdateVerification,
}

/// The roles that a caller can be asked to hold.
#[derive(Clone, Copy, Debug, PartialEq, Eq, Structural)]
pub enum Role {
    /// The identity that the profile belongs to.
    Owner,
    /// The identity that the deployment trusts to assign scores.
    Authority,
}

impl Operation {
    /// The role that the caller of this operation must hold.
    pub open spec fn spec_required_role(self) -> Role {
        match self {
            Operation::UpdateScore => Role::Authority,
            _ => Role::Owner,
        }
    }

    /// The role that the caller of this operation must hold.
    #[verifier::when_used_as_spec(spec_required_role)]
    pub fn required_role(self) -> (role: Role)
        ensures
            role == self.spec_required_role(),
    {
        match self {
            Operation::UpdateScore => Role::Authority,
            _ => Role::Owner,
        }
    }
}

/// The guard's decision on `caller` invoking `op` on a target that holds `record`.
pub open spec fn verdict(
    op: Operation,
    caller: Identity,
    authority: Identity,
    record: Option<UserProfile>,
) -> Result<(), TigerTrustError> {
    match op {
        Operation::Initialize => if record is Some {
            Err(TigerTrustError::ProfileAlreadyExists)
        } else {
            Ok(())
        },
        Operation::UpdateScore => if caller != authority {
            Err(TigerTrustError::Unauthorized)
        } else if record is None {
            Err(TigerTrustError::ProfileNotFound)
        } else {
            Ok(())
        },
        _ => match record {
            None => Err(TigerTrustError::ProfileNotFound),
            Some(profile) => if caller != profile.wallet {
                Err(TigerTrustError::Unauthorized)
            } else {
                Ok(())
            },
        },
    }
}

/// Decides whether `caller` may invoke `op` on a target that holds `record`.
///
/// Creation fails with `ProfileAlreadyExists` on an occupied target.  A score
/// update fails with `Unauthorized` unless the caller is `authority`, then
/// with `ProfileNotFound` on an empty target.  Every other operation fails
/// with `ProfileNotFound` on an empty target, then with `Unauthorized` unless
/// the caller is the record's owner.
pub fn authorize(
    op: Operation,
    caller: &Identity,
    authority: &Identity,
    record: &Option<UserProfile>,
) -> (outcome: Result<(), TigerTrustError>)
    ensures
        outcome == verdict(op, *caller, *authority, *record),
        outcome is Ok && op != Operation::Initialize ==> record is Some,
        outcome is Ok && op.spec_required_role() == Role::Authority ==> *caller == *authority,
        outcome is Ok && op != Operation::Initialize && op.spec_required_role() == Role::Owner
            ==> *caller == record->Some_0.wallet,
{
    match op {
        Operation::Initialize => {
            if record.is_some() {
                Err(TigerTrustError::ProfileAlreadyExists)
            } else {
                Ok(())
            }
        },
        Operation::UpdateScore => {
            if *caller != *authority {
                Err(TigerTrustError::Unauthorized)
            } else if record.is_none() {
                Err(TigerTrustError::ProfileNotFound)
            } else {
                Ok(())
            }
        },
        _ => {
            match record {
                None => Err(TigerTrustError::ProfileNotFound),
                Some(profile) => {
                    if *caller != profile.wallet {
                        Err(TigerTrustError::Unauthorized)
                    } else {
                        Ok(())
                    }
                },
            }
        },
    }
}

} // verus!
