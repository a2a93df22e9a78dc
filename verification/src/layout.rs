//! The stored form of a profile.
//!
//! A record is a byte string of fixed length: an eight-byte header that
//! names the format, then the fields in a fixed order.  Integers are stored
//! little-endian, timestamps in two's complement, the tier as its ordinal
//! and the verification flag as zero or one.
//!
//! | bytes  | field                   |
//! |--------|-------------------------|
//! | 0..8   | header                  |
//! | 8..40  | `wallet`                |
//! | 40..42 | `tiger_score`           |
//! | 42     | `tier`                  |
//! | 43     | `human_verified`        |
//! | 44..48 | `total_loans`           |
//! | 48..52 | `successful_repayments` |
//! | 52..56 | `defaults`              |
//! | 56..64 | `total_borrowed`        |
//! | 64..72 | `total_repaid`          |
//! | 72..80 | `outstanding_debt`      |
//! | 80..88 | `created_at`            |
//! | 88..96 | `last_score_update`     |
//! | 96     | `bump`                  |

use vstd::prelude::*;
use crate::codec::{
    append_bytes, append_le, from_twos_complement, le_bytes, le_value, lemma_bytes_of_value,
    lemma_le_bytes_len, lemma_le_value_bound, lemma_spans, lemma_twos_complement,
    lemma_value_of_bytes, read_le, to_signed, to_unsigned, twos_complement,
};
use crate::error::TigerTrustError;
use crate::identity::Identity;
use crate::profile::UserProfile;
use crate::tier::{Tier, TIER_COUNT};

verus! {

/// Length of a stored record in bytes.
pub const RECORD_LEN: usize = 97;

/// Length of the header in bytes.
pub const HEADER_LEN: usize = 8;

/// The header of every stored profile: the first eight bytes of the SHA-256
/// digest of `account:UserProfile`.
pub const HEADER: [u8; 8] = [32, 37, 119, 205, 179, 180, 13, 194];

/// Where the tier ordinal stands.
pub const TIER_AT: usize = 42;

/// Where the verification flag stands.
pub const VERIFIED_AT: usize = 43;

/// The header as a byte string.
pub open spec fn header() -> Seq<u8> {
    seq![32u8, 37, 119, 205, 179, 180, 13, 194]
}

/// The byte that stands for a flag.
pub open spec fn flag_byte(flag: bool) -> u8 {
    if flag {
        1
    } else {
        0
    }
}

/// The stored form of `profile`.
pub open spec fn encoding(profile: UserProfile) -> Seq<u8> {
    header() + profile.wallet@ + le_bytes(profile.tiger_score as nat, 2) + seq![
        profile.tier.spec_ordinal(),
    ] + seq![flag_byte(profile.human_verified)] + le_bytes(profile.total_loans as nat, 4)
        + le_bytes(profile.successful_repayments as nat, 4) + le_bytes(profile.defaults as nat, 4)
        + le_bytes(profile.total_borrowed as nat, 8) + le_bytes(profile.total_repaid as nat, 8)
        + le_bytes(profile.outstanding_debt as nat, 8) + le_bytes(
        twos_complement(profile.created_at),
        8,
    ) + le_bytes(twos_complement(profile.last_score_update), 8) + seq![profile.bump]
}

/// Why `bytes` is no stored profile, if it is none.  The length and the
/// header are looked at first, then the tier, then the verification flag.
pub open spec fn rejection(bytes: Seq<u8>) -> Option<TigerTrustError> {
    if bytes.len() != RECORD_LEN || bytes.subrange(0, HEADER_LEN as int) != header() {
        Some(TigerTrustError::CorruptRecord)
    } else if bytes[TIER_AT as int] >= TIER_COUNT {
        Some(TigerTrustError::InvalidTier)
    } else if bytes[VERIFIED_AT as int] > 1 {
        Some(TigerTrustError::CorruptRecord)
    } else {
        None
    }
}

/// What reading `bytes` yields: the one profile whose stored form `bytes`
/// is, or the reason for which `bytes` is rejected.
pub open spec fn decoding(bytes: Seq<u8>) -> Result<UserProfile, TigerTrustError> {
    match rejection(bytes) {
        Some(e) => Err(e),
        None => Ok(choose|profile: UserProfile| encoding(profile) == bytes),
    }
}

/// Where each field stands in a stored form, and what it holds.
pub proof fn lemma_anatomy(profile: UserProfile)
    ensures
        encoding(profile).len() == RECORD_LEN,
        encoding(profile).subrange(0, 8) == header(),
        encoding(profile).subrange(8, 40) == profile.wallet@,
        encoding(profile).subrange(40, 42) == le_bytes(profile.tiger_score as nat, 2),
        encoding(profile)[42] == profile.tier.spec_ordinal(),
        encoding(profile)[43] == flag_byte(profile.human_verified),
        encoding(profile).subrange(44, 48) == le_bytes(profile.total_loans as nat, 4),
        encoding(profile).subrange(48, 52) == le_bytes(profile.successful_repayments as nat, 4),
        encoding(profile).subrange(52, 56) == le_bytes(profile.defaults as nat, 4),
        encoding(profile).subrange(56, 64) == le_bytes(profile.total_borrowed as nat, 8),
        encoding(profile).subrange(64, 72) == le_bytes(profile.total_repaid as nat, 8),
        encoding(profile).subrange(72, 80) == le_bytes(profile.outstanding_debt as nat, 8),
        encoding(profile).subrange(80, 88) == le_bytes(twos_complement(profile.created_at), 8),
        encoding(profile).subrange(88, 96) == le_bytes(
            twos_complement(profile.last_score_update),
            8,
        ),
        encoding(profile)[96] == profile.bump,
{
    lemma_le_bytes_len(profile.tiger_score as nat, 2);
    lemma_le_bytes_len(profile.total_loans as nat, 4);
    lemma_le_bytes_len(profile.successful_repayments as nat, 4);
    lemma_le_bytes_len(profile.defaults as nat, 4);
    lemma_le_bytes_len(profile.total_borrowed as nat, 8);
    lemma_le_bytes_len(profile.total_repaid as nat, 8);
    lemma_le_bytes_len(profile.outstanding_debt as nat, 8);
    lemma_le_bytes_len(twos_complement(profile.created_at), 8);
    lemma_le_bytes_len(twos_complement(profile.last_score_update), 8);
    let e = encoding(profile);
    assert(e.subrange(0, 8) =~= header());
    assert(e.subrange(8, 40) =~= profile.wallet@);
    assert(e.subrange(40, 42) =~= le_bytes(profile.tiger_score as nat, 2));
    assert(e.subrange(44, 48) =~= le_bytes(profile.total_loans as nat, 4));
    assert(e.subrange(48, 52) =~= le_bytes(profile.successful_repayments as nat, 4));
    assert(e.subrange(52, 56) =~= le_bytes(profile.defaults as nat, 4));
    assert(e.subrange(56, 64) =~= le_bytes(profile.total_borrowed as nat, 8));
    assert(e.subrange(64, 72) =~= le_bytes(profile.total_repaid as nat, 8));
    assert(e.subrange(72, 80) =~= le_bytes(profile.outstanding_debt as nat, 8));
    assert(e.subrange(80, 88) =~= le_bytes(twos_complement(profile.created_at), 8));
    assert(e.subrange(88, 96) =~= le_bytes(twos_complement(profile.last_score_update), 8));
}

/// Two profiles with the same stored form are the same profile.
pub proof fn lemma_encoding_injective(a: UserProfile, b: UserProfile)
    requires
        encoding(a) == encoding(b),
    ensures
        a == b,
{
    lemma_anatomy(a);
    lemma_anatomy(b);
    lemma_spans();
    Identity::lemma_view_decides_equality(a.wallet, b.wallet);
    lemma_value_of_bytes(a.tiger_score as nat, 2);
    lemma_value_of_bytes(b.tiger_score as nat, 2);
    Tier::lemma_ordinal_injective(a.tier, b.tier);
    lemma_value_of_bytes(a.total_loans as nat, 4);
    lemma_value_of_bytes(b.total_loans as nat, 4);
    lemma_value_of_bytes(a.successful_repayments as nat, 4);
    lemma_value_of_bytes(b.successful_repayments as nat, 4);
    lemma_value_of_bytes(a.defaults as nat, 4);
    lemma_value_of_bytes(b.defaults as nat, 4);
    lemma_value_of_bytes(a.total_borrowed as nat, 8);
    lemma_value_of_bytes(b.total_borrowed as nat, 8);
    lemma_value_of_bytes(a.total_repaid as nat, 8);
    lemma_value_of_bytes(b.total_repaid as nat, 8);
    lemma_value_of_bytes(a.outstanding_debt as nat, 8);
    lemma_value_of_bytes(b.outstanding_debt as nat, 8);
    lemma_twos_complement(a.created_at);
    lemma_twos_complement(b.created_at);
    lemma_value_of_bytes(twos_complement(a.created_at), 8);
    lemma_value_of_bytes(twos_complement(b.created_at), 8);
    lemma_twos_complement(a.last_score_update);
    lemma_twos_complement(b.last_score_update);
    lemma_value_of_bytes(twos_complement(a.last_score_update), 8);
    lemma_value_of_bytes(twos_complement(b.last_score_update), 8);
}

/// Reading the stored form of a profile yields that profile: a stored form
/// is never rejected, and no other profile has the same stored form.
pub proof fn law_decoding_inverts_encoding(profile: UserProfile)
    ensures
        encoding(profile).len() == RECORD_LEN,
        rejection(encoding(profile)) is None,
        decoding(encoding(profile)) == Ok::<UserProfile, TigerTrustError>(profile),
{
    lemma_anatomy(profile);
    let chosen = choose|other: UserProfile| encoding(other) == encoding(profile);
    lemma_encoding_injective(chosen, profile);
}

/// Writing what was read yields the bytes that were read: whenever `bytes`
/// decodes to a profile, the stored form of that profile is `bytes`.
pub proof fn law_encoding_inverts_decoding(bytes: Seq<u8>, profile: UserProfile)
    requires
        decoding(bytes) == Ok::<UserProfile, TigerTrustError>(profile),
    ensures
        encoding(profile) == bytes,
{
    lemma_decodable(bytes);
}

/// A byte string of any other length than `RECORD_LEN` is rejected as corrupt.
pub proof fn law_wrong_length_is_corrupt(bytes: Seq<u8>)
    requires
        bytes.len() != RECORD_LEN,
    ensures
        decoding(bytes) == Err::<UserProfile, TigerTrustError>(TigerTrustError::CorruptRecord),
{
}

/// The profile that the fields of `bytes` spell, if `bytes` is not rejected.
proof fn lemma_decodable(bytes: Seq<u8>)
    requires
        rejection(bytes) is None,
    ensures
        exists|profile: UserProfile| encoding(profile) == bytes,
{
    let wallet = choose|id: Identity| id@ == bytes.subrange(8, 40);
    assert(wallet@ == bytes.subrange(8, 40)) by {
        lemma_identity_exists(bytes.subrange(8, 40));
    }
    let tier = choose|t: Tier| t.spec_ordinal() == bytes[42];
    assert(tier.spec_ordinal() == bytes[42]) by {
        lemma_tier_exists(bytes[42]);
    }
    lemma_spans();
    lemma_le_value_bound(bytes.subrange(40, 42));
    lemma_le_value_bound(bytes.subrange(44, 48));
    lemma_le_value_bound(bytes.subrange(48, 52));
    lemma_le_value_bound(bytes.subrange(52, 56));
    lemma_le_value_bound(bytes.subrange(56, 64));
    lemma_le_value_bound(bytes.subrange(64, 72));
    lemma_le_value_bound(bytes.subrange(72, 80));
    lemma_le_value_bound(bytes.subrange(80, 88));
    lemma_le_value_bound(bytes.subrange(88, 96));
    let profile = UserProfile {
        wallet,
        tiger_score: le_value(bytes.subrange(40, 42)) as u16,
        tier,
        human_verified: bytes[43] == 1,
        total_loans: le_value(bytes.subrange(44, 48)) as u32,
        successful_repayments: le_value(bytes.subrange(48, 52)) as u32,
        defaults: le_value(bytes.subrange(52, 56)) as u32,
        total_borrowed: le_value(bytes.subrange(56, 64)) as u64,
        total_repaid: le_value(bytes.subrange(64, 72)) as u64,
        outstanding_debt: le_value(bytes.subrange(72, 80)) as u64,
        created_at: from_twos_complement(le_value(bytes.subrange(80, 88))) as i64,
        last_score_update: from_twos_complement(le_value(bytes.subrange(88, 96))) as i64,
        bump: bytes[96],
    };
    lemma_fields_spell(bytes, profile);
}

/// Every 32-byte string is the view of an identity.
proof fn lemma_identity_exists(bytes: Seq<u8>)
    requires
        bytes.len() == 32,
    ensures
        exists|id: Identity| id@ == bytes,
{
    let raw: [u8; 32] = choose|raw: [u8; 32]| raw@ == bytes;
    assert(raw@ == bytes) by {
        lemma_array_exists(bytes, 32);
    }
    let id = Identity { bytes: raw };
    assert(id@ == bytes);
}

/// Every 32-byte string is the view of an array.
proof fn lemma_array_exists(bytes: Seq<u8>, filled: nat)
    requires
        bytes.len() == 32,
        filled <= 32,
    ensures
        exists|raw: [u8; 32]| raw@.subrange(0, filled as int) == bytes.subrange(0, filled as int),
        filled == 32 ==> exists|raw: [u8; 32]| raw@ == bytes,
    decreases filled,
{
    if filled == 0 {
        let raw: [u8; 32] = arbitrary();
        assert(raw@.subrange(0, 0) =~= bytes.subrange(0, 0));
    } else {
        lemma_array_exists(bytes, (filled - 1) as nat);
        let shorter = choose|raw: [u8; 32]|
            raw@.subrange(0, filled - 1) == bytes.subrange(0, filled - 1);
        let raw = vstd::array::spec_array_update(shorter, filled - 1, bytes[filled - 1]);
        vstd::array::axiom_spec_array_update(shorter, filled - 1, bytes[filled - 1]);
        assert(raw@.subrange(0, filled as int) =~= bytes.subrange(0, filled as int)) by {
            assert forall|i: int| 0 <= i < filled implies raw@[i] == bytes[i] by {
                if i < filled - 1 {
                    assert(shorter@.subrange(0, filled - 1)[i] == bytes.subrange(0, filled - 1)[i]);
                }
            }
        }
        if filled == 32 {
            assert(raw@.len() == 32);
            assert(raw@ =~= raw@.subrange(0, 32));
            assert(bytes =~= bytes.subrange(0, 32));
        }
    }
}

/// Every ordinal below the tier count names a tier.
proof fn lemma_tier_exists(byte: u8)
    requires
        byte < TIER_COUNT,
    ensures
        exists|t: Tier| t.spec_ordinal() == byte,
{
    if byte == 0 {
        assert(Tier::Bronze.spec_ordinal() == byte);
    } else if byte == 1 {
        assert(Tier::Silver.spec_ordinal() == byte);
    } else if byte == 2 {
        assert(Tier::Gold.spec_ordinal() == byte);
    } else if byte == 3 {
        assert(Tier::Platinum.spec_ordinal() == byte);
    } else {
        assert(Tier::Diamond.spec_ordinal() == byte);
    }
}

/// A profile whose fields are what the fields of `bytes` spell has `bytes`
/// as its stored form.
proof fn lemma_fields_spell(bytes: Seq<u8>, profile: UserProfile)
    requires
        rejection(bytes) is None,
        profile.wallet@ == bytes.subrange(8, 40),
        profile.tiger_score == le_value(bytes.subrange(40, 42)),
        profile.tier.spec_ordinal() == bytes[42],
        flag_byte(profile.human_verified) == bytes[43],
        profile.total_loans == le_value(bytes.subrange(44, 48)),
        profile.successful_repayments == le_value(bytes.subrange(48, 52)),
        profile.defaults == le_value(bytes.subrange(52, 56)),
        profile.total_borrowed == le_value(bytes.subrange(56, 64)),
        profile.total_repaid == le_value(bytes.subrange(64, 72)),
        profile.outstanding_debt == le_value(bytes.subrange(72, 80)),
        twos_complement(profile.created_at) == le_value(bytes.subrange(80, 88)),
        twos_complement(profile.last_score_update) == le_value(bytes.subrange(88, 96)),
        profile.bump == bytes[96],
    ensures
        encoding(profile) == bytes,
{
    lemma_bytes_of_value(bytes.subrange(40, 42));
    lemma_bytes_of_value(bytes.subrange(44, 48));
    lemma_bytes_of_value(bytes.subrange(48, 52));
    lemma_bytes_of_value(bytes.subrange(52, 56));
    lemma_bytes_of_value(bytes.subrange(56, 64));
    lemma_bytes_of_value(bytes.subrange(64, 72));
    lemma_bytes_of_value(bytes.subrange(72, 80));
    lemma_bytes_of_value(bytes.subrange(80, 88));
    lemma_bytes_of_value(bytes.subrange(88, 96));
    assert(encoding(profile) =~= bytes);
}

impl UserProfile {
    /// Writes the record in its stored form.
    pub fn serialize(&self) -> (out: Vec<u8>)
        ensures
            out@ == encoding(*self),
            out@.len() == RECORD_LEN,
            decoding(out@) == Ok::<UserProfile, TigerTrustError>(*self),
    {
        let mut out: Vec<u8> = Vec::with_capacity(RECORD_LEN);
        append_bytes(&mut out, HEADER.as_slice());
        assert(out@ =~= header());
        append_bytes(&mut out, self.wallet.bytes.as_slice());
        append_le(&mut out, self.tiger_score as u64, 2);
        out.push(self.tier.ordinal());
        out.push(if self.human_verified { 1 } else { 0 });
        append_le(&mut out, self.total_loans as u64, 4);
        append_le(&mut out, self.successful_repayments as u64, 4);
        append_le(&mut out, self.defaults as u64, 4);
        append_le(&mut out, self.total_borrowed, 8);
        append_le(&mut out, self.total_repaid, 8);
        append_le(&mut out, self.outstanding_debt, 8);
        append_le(&mut out, to_unsigned(self.created_at), 8);
        append_le(&mut out, to_unsigned(self.last_score_update), 8);
        out.push(self.bump);
        proof {
            assert(out@ =~= encoding(*self));
            law_decoding_inverts_encoding(*self);
        }
        out
    }

    /// Reads a record from its stored form.
    ///
    /// Fails with `CorruptRecord` where `bytes` has not exactly `RECORD_LEN`
    /// bytes or does not start with the header, then with `InvalidTier`
    /// where the tier ordinal names no tier, then with `CorruptRecord` where
    /// the verification flag is neither zero nor one.  Every other byte
    /// string is the stored form of exactly one record, which is returned.
    pub fn deserialize(bytes: &[u8]) -> (outcome: Result<UserProfile, TigerTrustError>)
        ensures
            outcome == decoding(bytes@),
            match outcome {
                Ok(profile) => rejection(bytes@) is None && encoding(profile) == bytes@,
                Err(e) => rejection(bytes@) == Some(e),
            },
            bytes@.len() != RECORD_LEN ==> outcome == Err::<UserProfile, TigerTrustError>(
                TigerTrustError::CorruptRecord,
            ),
    {
        if bytes.len() != RECORD_LEN {
            return Err(TigerTrustError::CorruptRecord);
        }
        let mut i: usize = 0;
        while i < HEADER_LEN
            invariant
                i <= HEADER_LEN,
                bytes@.len() == RECORD_LEN,
                forall|j: int| 0 <= j < i ==> bytes@[j] == header()[j],
            decreases HEADER_LEN - i,
        {
            if bytes[i] != HEADER[i] {
                assert(bytes@.subrange(0, HEADER_LEN as int)[i as int] != header()[i as int]);
                return Err(TigerTrustError::CorruptRecord);
            }
            i = i + 1;
        }
        assert(bytes@.subrange(0, HEADER_LEN as int) =~= header());
        let tier = match Tier::from_ordinal(bytes[TIER_AT]) {
            Ok(tier) => tier,
            Err(e) => {
                return Err(e);
            },
        };
        let flag = bytes[VERIFIED_AT];
        if flag > 1 {
            return Err(TigerTrustError::CorruptRecord);
        }
        let mut wallet = [0u8; 32];
        let mut k: usize = 0;
        while k < 32
            invariant
                k <= 32,
                bytes@.len() == RECORD_LEN,
                forall|j: int| 0 <= j < k ==> wallet@[j] == bytes@[8 + j],
            decreases 32 - k,
        {
            wallet[k] = bytes[8 + k];
            k = k + 1;
        }
        assert(wallet@ =~= bytes@.subrange(8, 40));
        proof {
            lemma_spans();
            lemma_le_value_bound(bytes@.subrange(40, 42));
            lemma_le_value_bound(bytes@.subrange(44, 48));
            lemma_le_value_bound(bytes@.subrange(48, 52));
            lemma_le_value_bound(bytes@.subrange(52, 56));
        }
        let profile = UserProfile {
            wallet: Identity { bytes: wallet },
            tiger_score: read_le(bytes, 40, 2) as u16,
            tier,
            human_verified: flag == 1,
            total_loans: read_le(bytes, 44, 4) as u32,
            successful_repayments: read_le(bytes, 48, 4) as u32,
            defaults: read_le(bytes, 52, 4) as u32,
            total_borrowed: read_le(bytes, 56, 8),
            total_repaid: read_le(bytes, 64, 8),
            outstanding_debt: read_le(bytes, 72, 8),
            created_at: to_signed(read_le(bytes, 80, 8)),
            last_score_update: to_signed(read_le(bytes, 88, 8)),
            bump: bytes[96],
        };
        proof {
            lemma_fields_spell(bytes@, profile);
            let chosen = choose|other: UserProfile| encoding(other) == bytes@;
            lemma_encoding_injective(chosen, profile);
        }
        Ok(profile)
    }
}

} // verus!
