//! Risk tiers.

use vstd::prelude::*;
use crate::error::TigerTrustError;

verus! {

/// The number of tiers; ordinals run from zero up to this, exclusive.
pub const TIER_COUNT: u8 = 5;

/// The risk band of a profile.  An authority assigns it together with the
/// score; nothing in this crate derives one from the other.
#[derive(Clone, Copy, Debug, PartialEq, Eq, Structural)]
pub enum Tier {
    /// Scores 0 to 299.
    Bronze,
    /// Scores 300 to 499.
    Silver,
    /// Scores 500 to 699.
    Gold,
    /// Scores 700 to 849.
    Platinum,
    /// Scores 850 to 1000.
    Diamond,
}

impl Tier {
    /// Position of the tier in declaration order.
    pub open spec fn spec_ordinal(self) -> u8 {
        match self {
            Tier::Bronze => 0,
            Tier::Silver => 1,
            Tier::Gold => 2,
            Tier::Platinum => 3,
            Tier::Diamond => 4,
        }
    }

    /// The tier whose band holds `score`.  Scores above 1000 fall in the top band.
    pub open spec fn spec_for_score(score: u16) -> Tier {
        if score < 300 {
            Tier::Bronze
        } else if score < 500 {
            Tier::Silver
        } else if score < 700 {
            Tier::Gold
        } else if score < 850 {
            Tier::Platinum
        } else {
            Tier::Diamond
        }
    }

    /// The single byte that stands for this tier in a stored record.
    #[verifier::when_used_as_spec(spec_ordinal)]
    pub fn ordinal(self) -> (byte: u8)
        ensures
            byte == self.spec_ordinal(),
            byte < TIER_COUNT,
    {
        match self {
            Tier::Bronze => 0,
            Tier::Silver => 1,
            Tier::Gold => 2,
            Tier::Platinum => 3,
            Tier::Diamond => 4,
        }
    }

    /// Reads a tier back from its ordinal.  Ordinals of 5 and above name no tier.
    pub fn from_ordinal(byte: u8) -> (tier: Result<Tier, TigerTrustError>)
        ensures
            byte < TIER_COUNT ==> tier is Ok && tier->Ok_0.spec_ordinal() == byte,
            byte >= TIER_COUNT ==> tier == Err::<Tier, TigerTrustError>(
                TigerTrustError::InvalidTier,
            ),
    {
        match byte {
            0 => Ok(Tier::Bronze),
            1 => Ok(Tier::Silver),
            2 => Ok(Tier::Gold),
            3 => Ok(Tier::Platinum),
            4 => Ok(Tier::Diamond),
            _ => Err(TigerTrustError::InvalidTier),
        }
    }

    /// The tier whose band holds `score`.
    #[verifier::when_used_as_spec(spec_for_score)]
    pub fn for_score(score: u16) -> (tier: Tier)
        ensures
            tier == Tier::spec_for_score(score),
    {
        if score < 300 {
            Tier::Bronze
        } else if score < 500 {
            Tier::Silver
        } else if score < 700 {
            Tier::Gold
        } else if score < 850 {
            Tier::Platinum
        } else {
            Tier::Diamond
        }
    }

    /// Distinct tiers have distinct ordinals.
    pub proof fn lemma_ordinal_injective(a: Tier, b: Tier)
        ensures
            a.spec_ordinal() == b.spec_ordinal() <==> a == b,
    {
    }
}

} // verus!
