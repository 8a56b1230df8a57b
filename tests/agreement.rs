use trusted_properties::{
    deposit_security, initialize_rent_contract, AgreementStatus, DepositSecurity, ErrorCode,
    InitializeRentContract, RentAgreementAccount,
};

const OWNER: [u8; 32] = [7u8; 32];
const TENANT: [u8; 32] = [9u8; 32];

fn fresh() -> InitializeRentContract {
    InitializeRentContract {
        rent_agreement_account: RentAgreementAccount::zeroed(),
        owner: OWNER,
        tenant: TENANT,
    }
}

fn scenario_a() -> RentAgreementAccount {
    let mut ctx = fresh();
    assert_eq!(initialize_rent_contract(&mut ctx, 5000, 1000, 12, 1, 2024), Ok(()));
    ctx.rent_agreement_account
}

fn deposit(record: RentAgreementAccount, amount: u64) -> (Result<(), ErrorCode>, RentAgreementAccount) {
    let mut ctx = DepositSecurity { rent_agreement_account: record, tenant: TENANT };
    let r = deposit_security(&mut ctx, amount);
    (r, ctx.rent_agreement_account)
}

#[test]
fn scenario_a_initialize() {
    let rec = scenario_a();
    assert_eq!(rec.status, AgreementStatus::DepositPending);
    assert_eq!(rec.status.as_u8(), 1);
    assert_eq!(rec.remaining_payments, 12);
    assert_eq!(rec.remaining_security_deposit, 0);
}

#[test]
fn scenario_b_first_deposit() {
    let (r, rec) = deposit(scenario_a(), 5000);
    assert_eq!(r, Ok(()));
    assert_eq!(rec.status, AgreementStatus::Active);
    assert_eq!(rec.status.as_u8(), 2);
    assert_eq!(rec.remaining_security_deposit, 5000);
}

#[test]
fn scenario_c_second_deposit_refused() {
    let (_, b) = deposit(scenario_a(), 5000);
    let (r, c) = deposit(b, 5000);
    assert_eq!(r, Err(ErrorCode::SecurityAlreadyDeposited));
    assert_eq!(c, b);
}

#[test]
fn scenario_d_zero_rent_refused() {
    let mut ctx = InitializeRentContract {
        rent_agreement_account: RentAgreementAccount::zeroed(),
        owner: OWNER,
        tenant: TENANT,
    };
    let r = initialize_rent_contract(&mut ctx, 5000, 0, 6, 1, 2024);
    assert_eq!(r, Err(ErrorCode::InvalidInstructionParameter));
    assert_eq!(ctx.rent_agreement_account, RentAgreementAccount::zeroed());
    assert_eq!(ctx.rent_agreement_account.status, AgreementStatus::Uninitialized);
}

#[test]
fn zero_rent_refused_for_every_duration() {
    for d in 0..=255u8 {
        let mut ctx = fresh();
        assert_eq!(
            initialize_rent_contract(&mut ctx, 1, 0, d, 3, 2030),
            Err(ErrorCode::InvalidInstructionParameter)
        );
        assert_eq!(ctx.rent_agreement_account, RentAgreementAccount::zeroed());
    }
}

#[test]
fn duration_bounds() {
    for d in 0..=255u8 {
        let mut ctx = fresh();
        let r = initialize_rent_contract(&mut ctx, 0, 1, d, 12, 1999);
        if d >= 1 && d <= 60 {
            assert_eq!(r, Ok(()));
            assert_eq!(ctx.rent_agreement_account.duration, d);
        } else {
            assert_eq!(r, Err(ErrorCode::InvalidInstructionParameter));
            assert_eq!(ctx.rent_agreement_account, RentAgreementAccount::zeroed());
        }
    }
}

#[test]
fn initialize_writes_every_field() {
    let mut ctx = fresh();
    assert_eq!(initialize_rent_contract(&mut ctx, u64::MAX, 42, 60, 11, u16::MAX), Ok(()));
    let rec = ctx.rent_agreement_account;
    assert_eq!(rec.status, AgreementStatus::DepositPending);
    assert_eq!(rec.owner_pubkey, OWNER);
    assert_eq!(rec.tenant_pubkey, TENANT);
    assert_eq!(rec.security_deposit, u64::MAX);
    assert_eq!(rec.rent_amount, 42);
    assert_eq!(rec.duration, 60);
    assert_eq!(rec.remaining_payments, 60);
    assert_eq!(rec.remaining_security_deposit, 0);
    assert_eq!(rec.start_month, 11);
    assert_eq!(rec.start_year, u16::MAX);
    assert_eq!(rec.duration_extension_request, 0);
    assert_eq!(ctx.owner, OWNER);
    assert_eq!(ctx.tenant, TENANT);
}

#[test]
fn deposit_below_minimum_is_accepted() {
    let (r, rec) = deposit(scenario_a(), 1);
    assert_eq!(r, Ok(()));
    assert_eq!(rec.remaining_security_deposit, 1);
    assert_eq!(rec.security_deposit, 5000);
}

#[test]
fn deposit_refused_on_every_other_status() {
    for s in [
        AgreementStatus::Uninitialized,
        AgreementStatus::Active,
        AgreementStatus::Completed,
        AgreementStatus::Terminated,
    ] {
        let mut rec = scenario_a();
        rec.status = s;
        rec.remaining_security_deposit = 77;
        let (r, after) = deposit(rec, 5000);
        assert_eq!(r, Err(ErrorCode::SecurityAlreadyDeposited));
        assert_eq!(after, rec);
    }
}

#[test]
fn deposit_keeps_other_fields() {
    let a = scenario_a();
    let (_, b) = deposit(a, 123);
    assert_eq!(b.owner_pubkey, a.owner_pubkey);
    assert_eq!(b.tenant_pubkey, a.tenant_pubkey);
    assert_eq!(b.security_deposit, a.security_deposit);
    assert_eq!(b.rent_amount, a.rent_amount);
    assert_eq!(b.duration, a.duration);
    assert_eq!(b.remaining_payments, a.remaining_payments);
    assert_eq!(b.start_month, a.start_month);
    assert_eq!(b.start_year, a.start_year);
    assert_eq!(b.duration_extension_request, a.duration_extension_request);
}

#[test]
fn failed_initialize_keeps_existing_record() {
    let (_, active) = deposit(scenario_a(), 5000);
    let mut ctx = InitializeRentContract {
        rent_agreement_account: active,
        owner: [1u8; 32],
        tenant: [2u8; 32],
    };
    assert_eq!(
        initialize_rent_contract(&mut ctx, 9, 9, 61, 9, 9),
        Err(ErrorCode::InvalidInstructionParameter)
    );
    assert_eq!(ctx.rent_agreement_account, active);
}

#[test]
fn status_predicates() {
    let mut rec = scenario_a();
    assert!(rec.is_security_deposit_pending());
    assert!(!rec.is_completed());
    assert!(!rec.is_terminated());
    rec.status = AgreementStatus::Completed;
    assert!(!rec.is_security_deposit_pending());
    assert!(rec.is_completed());
    assert!(!rec.is_terminated());
    rec.status = AgreementStatus::Terminated;
    assert!(rec.is_terminated());
    assert!(!rec.is_completed());
}

#[test]
fn status_codes_round_trip() {
    let all = [
        AgreementStatus::Uninitialized,
        AgreementStatus::DepositPending,
        AgreementStatus::Active,
        AgreementStatus::Completed,
        AgreementStatus::Terminated,
    ];
    for (i, s) in all.iter().enumerate() {
        assert_eq!(s.as_u8(), i as u8);
        assert_eq!(AgreementStatus::from_u8(i as u8), Some(*s));
    }
    for b in 5..=255u8 {
        assert_eq!(AgreementStatus::from_u8(b), None);
    }
}

#[test]
fn error_messages() {
    assert_eq!(ErrorCode::InvalidInstruction.message(), "Invalid Instruction");
    assert_eq!(ErrorCode::IncorrectPaymentAmount.message(), "Incorrect Payment Amount");
    assert_eq!(ErrorCode::RentAlreadyFullyPaid.message(), "Full Rent Already Paid");
    assert_eq!(
        ErrorCode::SecurityAlreadyDeposited.message(),
        "Security Amount Already Deposited"
    );
    assert_eq!(
        ErrorCode::RentAgreementTerminated.message(),
        "Rent Agreement Already Terminated"
    );
    assert_eq!(ErrorCode::InvalidAgreementStatus.message(), "Invalid Agreement Status");
    assert_eq!(
        ErrorCode::InvalidInstructionParameter.message(),
        "Invalid Instruction Parameter"
    );
}
