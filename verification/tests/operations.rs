use tigertrust::{
    initialize_user_profile, record_loan, record_repayment, screen_request,
    update_human_verification, update_tiger_score, Deployment, Identity, InitializeUserProfile,
    Operation, Tier, TigerTrustError, UpdateTigerScore, UpdateUserProfile, UserProfile,
};

const PROGRAM: [u8; 32] = [
    3, 6, 110, 48, 18, 127, 204, 90, 201, 200, 51, 58, 230, 17, 179, 80, 98, 183, 81, 239, 110,
    91, 51, 45, 112, 197, 0, 130, 176, 239, 215, 109,
];

const ADDRESS_OF_SEVENS: [u8; 32] = [
    103, 70, 132, 163, 18, 51, 134, 133, 143, 59, 251, 11, 77, 201, 16, 236, 42, 107, 20, 121, 5,
    24, 201, 164, 205, 34, 243, 72, 208, 172, 54, 59,
];

const ADDRESS_OF_SEVENS_AT_250: [u8; 32] = [
    252, 27, 141, 130, 209, 238, 198, 84, 47, 188, 5, 34, 244, 51, 149, 64, 164, 53, 165, 146, 26,
    117, 201, 35, 176, 112, 11, 221, 17, 7, 11, 128,
];

const ADDRESS_OF_NINES: [u8; 32] = [
    100, 243, 53, 165, 11, 127, 60, 207, 26, 234, 207, 130, 54, 9, 155, 6, 103, 150, 118, 10, 7,
    54, 130, 110, 185, 62, 59, 5, 222, 177, 113, 148,
];

const BUMP_OF_SEVENS: u8 = 253;

fn deployment() -> Deployment {
    Deployment { program_id: Identity::new(PROGRAM), authority: Identity::new([2u8; 32]) }
}

fn owner() -> Identity {
    Identity::new([7u8; 32])
}

fn stranger() -> Identity {
    Identity::new([9u8; 32])
}

fn home() -> Identity {
    Identity::new(ADDRESS_OF_SEVENS)
}

fn created(now: i64) -> UserProfile {
    let mut ctx = InitializeUserProfile { user: owner(), address: home(), user_profile: None };
    assert_eq!(initialize_user_profile(&deployment(), &mut ctx, true, now), Ok(BUMP_OF_SEVENS));
    ctx.user_profile.unwrap()
}

fn as_owner(record: UserProfile) -> UpdateUserProfile {
    UpdateUserProfile {
        user: owner(),
        address: home(),
        bump: BUMP_OF_SEVENS,
        user_profile: Some(record),
    }
}

fn as_authority(record: UserProfile) -> UpdateTigerScore {
    UpdateTigerScore {
        authority: deployment().authority,
        address: home(),
        bump: BUMP_OF_SEVENS,
        user_profile: Some(record),
    }
}

#[test]
fn creation_at_the_derived_address() {
    let mut ctx = InitializeUserProfile { user: owner(), address: home(), user_profile: None };
    assert_eq!(initialize_user_profile(&deployment(), &mut ctx, true, 1_700_000_000), Ok(253));
    assert_eq!(ctx.user, owner());
    assert_eq!(ctx.address, home());
    assert_eq!(
        ctx.user_profile,
        Some(UserProfile {
            wallet: owner(),
            tiger_score: 300,
            tier: Tier::Silver,
            human_verified: true,
            total_loans: 0,
            successful_repayments: 0,
            defaults: 0,
            total_borrowed: 0,
            total_repaid: 0,
            outstanding_debt: 0,
            created_at: 1_700_000_000,
            last_score_update: 1_700_000_000,
            bump: 253,
        })
    );
}

#[test]
fn creation_on_an_occupied_target() {
    let existing = created(5);
    let mut ctx =
        InitializeUserProfile { user: owner(), address: home(), user_profile: Some(existing) };
    let before = ctx;
    assert_eq!(
        initialize_user_profile(&deployment(), &mut ctx, false, 6),
        Err(TigerTrustError::ProfileAlreadyExists)
    );
    assert_eq!(ctx, before);
}

#[test]
fn creation_at_an_address_of_another_owner() {
    let mut ctx = InitializeUserProfile {
        user: owner(),
        address: Identity::new(ADDRESS_OF_NINES),
        user_profile: None,
    };
    let before = ctx;
    assert_eq!(
        initialize_user_profile(&deployment(), &mut ctx, false, 6),
        Err(TigerTrustError::AddressMismatch)
    );
    assert_eq!(ctx, before);
}

#[test]
fn creation_under_another_program() {
    let elsewhere = Deployment { program_id: Identity::new([0u8; 32]), ..deployment() };
    let mut ctx = InitializeUserProfile { user: owner(), address: home(), user_profile: None };
    assert_eq!(
        initialize_user_profile(&elsewhere, &mut ctx, false, 6),
        Err(TigerTrustError::AddressMismatch)
    );
    assert_eq!(ctx.user_profile, None);
}

#[test]
fn occupied_target_is_reported_before_a_wrong_address() {
    let mut ctx = InitializeUserProfile {
        user: owner(),
        address: Identity::new(ADDRESS_OF_NINES),
        user_profile: Some(created(5)),
    };
    assert_eq!(
        initialize_user_profile(&deployment(), &mut ctx, false, 6),
        Err(TigerTrustError::ProfileAlreadyExists)
    );
}

#[test]
fn score_update_by_the_authority() {
    let mut ctx = as_authority(created(100));
    assert_eq!(update_tiger_score(&deployment(), &mut ctx, 850, Tier::Diamond, 200), Ok(()));
    let record = ctx.user_profile.unwrap();
    assert_eq!(record.tiger_score, 850);
    assert_eq!(record.tier, Tier::Diamond);
    assert_eq!(record.last_score_update, 200);
    assert_eq!(record.created_at, 100);
    assert_eq!(
        record,
        UserProfile {
            tiger_score: 850,
            tier: Tier::Diamond,
            last_score_update: 200,
            ..created(100)
        }
    );
}

#[test]
fn score_update_by_anyone_else() {
    for caller in [owner(), stranger(), home()] {
        let mut ctx = UpdateTigerScore { authority: caller, ..as_authority(created(100)) };
        let before = ctx;
        assert_eq!(
            update_tiger_score(&deployment(), &mut ctx, 850, Tier::Diamond, 200),
            Err(TigerTrustError::Unauthorized)
        );
        assert_eq!(ctx, before);
    }
}

#[test]
fn score_update_by_a_stranger_on_an_empty_target() {
    let mut ctx = UpdateTigerScore {
        authority: stranger(),
        address: home(),
        bump: BUMP_OF_SEVENS,
        user_profile: None,
    };
    assert_eq!(
        update_tiger_score(&deployment(), &mut ctx, 850, Tier::Diamond, 200),
        Err(TigerTrustError::Unauthorized)
    );
}

#[test]
fn score_update_on_an_empty_target() {
    let mut ctx = UpdateTigerScore {
        authority: deployment().authority,
        address: home(),
        bump: BUMP_OF_SEVENS,
        user_profile: None,
    };
    assert_eq!(
        update_tiger_score(&deployment(), &mut ctx, 850, Tier::Diamond, 200),
        Err(TigerTrustError::ProfileNotFound)
    );
    assert_eq!(ctx.user_profile, None);
}

#[test]
fn score_update_with_a_wrong_proof() {
    let mut ctx = UpdateTigerScore { bump: 252, ..as_authority(created(100)) };
    let before = ctx;
    assert_eq!(
        update_tiger_score(&deployment(), &mut ctx, 850, Tier::Diamond, 200),
        Err(TigerTrustError::AddressMismatch)
    );
    assert_eq!(ctx, before);
}

#[test]
fn score_update_at_a_wrong_address() {
    let mut ctx =
        UpdateTigerScore { address: Identity::new(ADDRESS_OF_NINES), ..as_authority(created(100)) };
    let before = ctx;
    assert_eq!(
        update_tiger_score(&deployment(), &mut ctx, 850, Tier::Diamond, 200),
        Err(TigerTrustError::AddressMismatch)
    );
    assert_eq!(ctx, before);
}

#[test]
fn score_update_beyond_the_maximum() {
    let mut ctx = as_authority(created(100));
    let before = ctx;
    assert_eq!(
        update_tiger_score(&deployment(), &mut ctx, 1001, Tier::Diamond, 200),
        Err(TigerTrustError::InvalidScore)
    );
    assert_eq!(ctx, before);
}

#[test]
fn a_stranger_is_turned_away_before_the_score_is_looked_at() {
    let mut ctx = UpdateTigerScore { authority: stranger(), ..as_authority(created(100)) };
    assert_eq!(
        update_tiger_score(&deployment(), &mut ctx, 1001, Tier::Diamond, 200),
        Err(TigerTrustError::Unauthorized)
    );
}

#[test]
fn loan_by_the_owner() {
    let mut ctx = as_owner(created(100));
    assert_eq!(record_loan(&deployment(), &mut ctx, 1000), Ok(()));
    assert_eq!(
        ctx.user_profile,
        Some(UserProfile {
            total_loans: 1,
            total_borrowed: 1000,
            outstanding_debt: 1000,
            ..created(100)
        })
    );
    assert_eq!(ctx.user, owner());
    assert_eq!(ctx.address, home());
    assert_eq!(ctx.bump, BUMP_OF_SEVENS);
}

#[test]
fn loan_by_anyone_else() {
    for caller in [stranger(), deployment().authority, home()] {
        let mut ctx = UpdateUserProfile { user: caller, ..as_owner(created(100)) };
        let before = ctx;
        assert_eq!(record_loan(&deployment(), &mut ctx, 1000), Err(TigerTrustError::Unauthorized));
        assert_eq!(ctx, before);
    }
}

#[test]
fn loan_on_an_empty_target() {
    let mut ctx =
        UpdateUserProfile { user_profile: None, ..as_owner(created(100)) };
    assert_eq!(record_loan(&deployment(), &mut ctx, 1000), Err(TigerTrustError::ProfileNotFound));
    assert_eq!(ctx.user_profile, None);
}

#[test]
fn loan_with_a_wrong_proof() {
    let mut ctx = UpdateUserProfile { bump: 254, ..as_owner(created(100)) };
    let before = ctx;
    assert_eq!(record_loan(&deployment(), &mut ctx, 1000), Err(TigerTrustError::AddressMismatch));
    assert_eq!(ctx, before);
}

#[test]
fn loan_on_a_record_with_a_foreign_proof() {
    for bump in [255u8, 254, 252, 250, 0] {
        let tampered = UserProfile { bump, ..created(100) };
        let mut ctx = UpdateUserProfile { bump, ..as_owner(tampered) };
        assert_eq!(
            record_loan(&deployment(), &mut ctx, 1000),
            Err(TigerTrustError::AddressMismatch)
        );
        let mut ctx = as_owner(tampered);
        assert_eq!(
            record_loan(&deployment(), &mut ctx, 1000),
            Err(TigerTrustError::AddressMismatch)
        );
    }
}

#[test]
fn loan_at_the_address_that_the_stored_proof_yields() {
    let elsewhere = Identity::new(ADDRESS_OF_SEVENS_AT_250);
    let record = UserProfile { bump: 250, ..created(100) };
    let mut ctx =
        UpdateUserProfile { address: elsewhere, bump: 250, ..as_owner(record) };
    assert_eq!(record_loan(&deployment(), &mut ctx, 1000), Ok(()));
    let mut ctx = UpdateUserProfile { user: owner(), address: elsewhere, ..as_owner(created(100)) };
    assert_eq!(record_loan(&deployment(), &mut ctx, 1000), Err(TigerTrustError::AddressMismatch));
}

#[test]
fn creation_only_at_the_address_of_the_highest_bump() {
    let mut ctx = InitializeUserProfile {
        user: owner(),
        address: Identity::new(ADDRESS_OF_SEVENS_AT_250),
        user_profile: None,
    };
    assert_eq!(
        initialize_user_profile(&deployment(), &mut ctx, false, 6),
        Err(TigerTrustError::AddressMismatch)
    );
    assert_eq!(ctx.user_profile, None);
}

#[test]
fn loan_at_a_wrong_address() {
    let mut ctx =
        UpdateUserProfile { address: Identity::new(ADDRESS_OF_NINES), ..as_owner(created(100)) };
    let before = ctx;
    assert_eq!(record_loan(&deployment(), &mut ctx, 1000), Err(TigerTrustError::AddressMismatch));
    assert_eq!(ctx, before);
}

#[test]
fn loan_that_overflows() {
    let full = UserProfile { total_loans: u32::MAX, ..created(100) };
    let mut ctx = as_owner(full);
    let before = ctx;
    assert_eq!(record_loan(&deployment(), &mut ctx, 1), Err(TigerTrustError::Overflow));
    assert_eq!(ctx, before);
}

#[test]
fn repayment_by_the_owner() {
    let mut ctx = as_owner(created(100));
    assert_eq!(record_loan(&deployment(), &mut ctx, 1000), Ok(()));
    assert_eq!(record_repayment(&deployment(), &mut ctx, 400, false), Ok(()));
    let record = ctx.user_profile.unwrap();
    assert_eq!(record.total_borrowed, 1000);
    assert_eq!(record.total_repaid, 400);
    assert_eq!(record.outstanding_debt, 600);
    assert_eq!(record.total_loans, 1);
    assert_eq!(record.successful_repayments, 1);
    assert_eq!(record.defaults, 0);
    assert_eq!(record_repayment(&deployment(), &mut ctx, 1000, true), Ok(()));
    let record = ctx.user_profile.unwrap();
    assert_eq!(record.total_repaid, 1400);
    assert_eq!(record.outstanding_debt, 0);
    assert_eq!(record.defaults, 1);
    assert_eq!(record.successful_repayments, 1);
}

#[test]
fn repayment_by_anyone_else() {
    let mut ctx = UpdateUserProfile { user: stranger(), ..as_owner(created(100)) };
    let before = ctx;
    assert_eq!(
        record_repayment(&deployment(), &mut ctx, 1, false),
        Err(TigerTrustError::Unauthorized)
    );
    assert_eq!(ctx, before);
}

#[test]
fn repayment_on_an_empty_target() {
    let mut ctx =
        UpdateUserProfile { user_profile: None, ..as_owner(created(100)) };
    assert_eq!(
        record_repayment(&deployment(), &mut ctx, 1, true),
        Err(TigerTrustError::ProfileNotFound)
    );
}

#[test]
fn repayment_that_overflows() {
    let full = UserProfile { total_repaid: u64::MAX, ..created(100) };
    let mut ctx = as_owner(full);
    let before = ctx;
    assert_eq!(record_repayment(&deployment(), &mut ctx, 1, false), Err(TigerTrustError::Overflow));
    assert_eq!(ctx, before);
}

#[test]
fn verification_by_the_owner() {
    let mut ctx = as_owner(created(100));
    assert_eq!(update_human_verification(&deployment(), &mut ctx, false), Ok(()));
    assert_eq!(ctx.user_profile, Some(UserProfile { human_verified: false, ..created(100) }));
    assert_eq!(update_human_verification(&deployment(), &mut ctx, true), Ok(()));
    assert_eq!(ctx.user_profile, Some(created(100)));
}

#[test]
fn verification_by_anyone_else() {
    let mut ctx = UpdateUserProfile { user: deployment().authority, ..as_owner(created(100)) };
    let before = ctx;
    assert_eq!(
        update_human_verification(&deployment(), &mut ctx, false),
        Err(TigerTrustError::Unauthorized)
    );
    assert_eq!(ctx, before);
}

#[test]
fn verification_with_a_wrong_proof() {
    let mut ctx = UpdateUserProfile { bump: 0, ..as_owner(created(100)) };
    assert_eq!(
        update_human_verification(&deployment(), &mut ctx, false),
        Err(TigerTrustError::AddressMismatch)
    );
}

#[test]
fn screening_hands_out_the_record() {
    let record = created(100);
    for op in [Operation::RecordLoan, Operation::RecordRepayment, Operation::UpdateVerification] {
        assert_eq!(
            screen_request(&deployment(), op, &owner(), &home(), BUMP_OF_SEVENS, &Some(record)),
            Ok(record)
        );
    }
    assert_eq!(
        screen_request(
            &deployment(),
            Operation::UpdateScore,
            &deployment().authority,
            &home(),
            BUMP_OF_SEVENS,
            &Some(record)
        ),
        Ok(record)
    );
}

#[test]
fn screening_never_lets_a_creation_through() {
    assert_eq!(
        screen_request(
            &deployment(),
            Operation::Initialize,
            &owner(),
            &home(),
            BUMP_OF_SEVENS,
            &None
        ),
        Err(TigerTrustError::ProfileNotFound)
    );
    assert_eq!(
        screen_request(
            &deployment(),
            Operation::Initialize,
            &owner(),
            &home(),
            BUMP_OF_SEVENS,
            &Some(created(1))
        ),
        Err(TigerTrustError::ProfileAlreadyExists)
    );
}

#[test]
fn a_later_state_of_a_record_is_still_let_through() {
    let mut ctx = as_owner(created(100));
    for amount in [5u64, 6, 7] {
        assert_eq!(record_loan(&deployment(), &mut ctx, amount), Ok(()));
    }
    let mut scoring = as_authority(ctx.user_profile.unwrap());
    assert_eq!(update_tiger_score(&deployment(), &mut scoring, 510, Tier::Gold, 300), Ok(()));
    let mut ctx = as_owner(scoring.user_profile.unwrap());
    assert_eq!(record_repayment(&deployment(), &mut ctx, 18, false), Ok(()));
    let record = ctx.user_profile.unwrap();
    assert_eq!(record.total_loans, 3);
    assert_eq!(record.total_borrowed, 18);
    assert_eq!(record.outstanding_debt, 0);
    assert_eq!(record.tiger_score, 510);
}
