use vstd::prelude::*;

use crate::error::ErrorCode;
use crate::status::AgreementStatus;

verus! {

/// An opaque handle of a party: the 32 bytes of its public key. The
/// agreement only stores it; who may act under it is checked by the host.
pub type Identity = [u8; 32];

/// Longest lease, in months.
pub const MAX_DURATION_MONTHS: u8 = 60;

/// The persistent state of one lease.
#[derive(Clone, Copy, Debug, PartialEq, Eq)]
pub struct RentAgreementAccount {
    /// Where the agreement stands in its lifecycle.
    pub status: AgreementStatus,
    /// Public key of the property's owner.
    pub owner_pubkey: Identity,
    /// Public key of the tenant.
    pub tenant_pubkey: Identity,
    /// Minimum security deposit the tenant is to make before the lease begins.
    pub security_deposit: u64,
    /// Rent per month.
    pub rent_amount: u64,
    /// Length of the lease, in months.
    pub duration: u8,
    /// Monthly payments still owed.
    pub remaining_payments: u8,
    /// Security deposit actually held; zero until it is made.
    pub remaining_security_deposit: u64,
    /// Month the lease starts (1-12).
    pub start_month: u8,
    /// Year the lease starts.
    pub start_year: u16,
    /// Months of extension the tenant asked for and nobody approved yet.
    pub duration_extension_request: u8,
}

/// The identity whose 32 bytes are all zero.
pub open spec fn zero_identity() -> Identity {
    vstd::array::spec_array_fill_for_copy_type::<u8, 32>(0)
}

/// Freshly allocated storage: every field zero.
pub open spec fn zeroed_record() -> RentAgreementAccount {
    RentAgreementAccount {
        status: AgreementStatus::Uninitialized,
        owner_pubkey: zero_identity(),
        tenant_pubkey: zero_identity(),
        security_deposit: 0,
        rent_amount: 0,
        duration: 0,
        remaining_payments: 0,
        remaining_security_deposit: 0,
        start_month: 0,
        start_year: 0,
        duration_extension_request: 0,
    }
}

impl RentAgreementAccount {
    /// What holds of every record the operations can produce from fresh
    /// storage: untouched storage is all zero; a created agreement has valid
    /// terms, owes no more payments than its duration, and holds no deposit
    /// while it waits for one.
    pub open spec fn well_formed(self) -> bool {
        if self.status == AgreementStatus::Uninitialized {
            self == zeroed_record()
        } else {
            &&& valid_terms(self.rent_amount, self.duration)
            &&& self.remaining_payments <= self.duration
            &&& self.status == AgreementStatus::DepositPending
                ==> self.remaining_security_deposit == 0
        }
    }

    /// The record as the host hands it over before creation: all zero.
    pub fn zeroed() -> (r: RentAgreementAccount)
        ensures
            r == zeroed_record(),
    {
        RentAgreementAccount {
            status: AgreementStatus::Uninitialized,
            owner_pubkey: [0u8; 32],
            tenant_pubkey: [0u8; 32],
            security_deposit: 0,
            rent_amount: 0,
            duration: 0,
            remaining_payments: 0,
            remaining_security_deposit: 0,
            start_month: 0,
            start_year: 0,
            duration_extension_request: 0,
        }
    }
}

/// The accounts an `initialize_rent_contract` call works on: the fresh record
/// and the two parties, whose signatures the host has already checked.
pub struct InitializeRentContract {
    pub rent_agreement_account: RentAgreementAccount,
    pub owner: Identity,
    pub tenant: Identity,
}

/// The accounts a `deposit_security` call works on: the record and the tenant
/// who pays, whose signature the host has already checked.
pub struct DepositSecurity {
    pub rent_agreement_account: RentAgreementAccount,
    pub tenant: Identity,
}

/// Terms a new agreement may be created with: some rent, and a lease of one
/// to sixty months.
pub open spec fn valid_terms(rent_amount: u64, duration: u8) -> bool {
    rent_amount > 0 && 1 <= duration <= MAX_DURATION_MONTHS
}

/// The record a successful creation writes.
pub open spec fn initialized_record(
    owner: Identity,
    tenant: Identity,
    security_deposit: u64,
    rent_amount: u64,
    duration: u8,
    start_month: u8,
    start_year: u16,
) -> RentAgreementAccount {
    RentAgreementAccount {
        status: AgreementStatus::DepositPending,
        owner_pubkey: owner,
        tenant_pubkey: tenant,
        security_deposit,
        rent_amount,
        duration,
        remaining_payments: duration,
        remaining_security_deposit: 0,
        start_month,
        start_year,
        duration_extension_request: 0,
    }
}

/// What creating an agreement over record `a` reports, and the record it
/// leaves behind.
pub open spec fn initialize_outcome(
    a: RentAgreementAccount,
    owner: Identity,
    tenant: Identity,
    security_deposit: u64,
    rent_amount: u64,
    duration: u8,
    start_month: u8,
    start_year: u16,
) -> (Result<(), ErrorCode>, RentAgreementAccount) {
    if valid_terms(rent_amount, duration) {
        (
            Ok(()),
            initialized_record(
                owner,
                tenant,
                security_deposit,
                rent_amount,
                duration,
                start_month,
                start_year,
            ),
        )
    } else {
        (Err(ErrorCode::InvalidInstructionParameter), a)
    }
}

/// What a security deposit of `amount` on record `a` reports, and the record
/// it leaves behind. The amount is taken as it is, whatever the agreed
/// minimum.
pub open spec fn deposit_outcome(a: RentAgreementAccount, amount: u64) -> (
    Result<(), ErrorCode>,
    RentAgreementAccount,
) {
    if a.status == AgreementStatus::DepositPending {
        (
            Ok(()),
            RentAgreementAccount {
                status: AgreementStatus::Active,
                remaining_security_deposit: amount,
                ..a
            },
        )
    } else {
        (Err(ErrorCode::SecurityAlreadyDeposited), a)
    }
}

/// Creates an agreement in the context's record, which the host hands over
/// freshly allocated. On success the record waits for the security deposit
/// and owes every monthly payment; on failure nothing is written.
pub fn initialize_rent_contract(
    ctx: &mut InitializeRentContract,
    security_deposit: u64,
    rent_amount: u64,
    duration: u8,
    start_month: u8,
    start_year: u16,
) -> (r: Result<(), ErrorCode>)
    ensures
        r is Ok <==> valid_terms(rent_amount, duration),
        r is Err ==> r == Err::<(), ErrorCode>(ErrorCode::InvalidInstructionParameter),
        r is Err ==> *final(ctx) == *old(ctx),
        (r, final(ctx).rent_agreement_account) == initialize_outcome(
            old(ctx).rent_agreement_account,
            old(ctx).owner,
            old(ctx).tenant,
            security_deposit,
            rent_amount,
            duration,
            start_month,
            start_year,
        ),
        final(ctx).owner == old(ctx).owner,
        final(ctx).tenant == old(ctx).tenant,
{
    if rent_amount == 0 {
        return Err(ErrorCode::InvalidInstructionParameter);
    }
    if duration == 0 || duration > MAX_DURATION_MONTHS {
        return Err(ErrorCode::InvalidInstructionParameter);
    }
    let rent_data = &mut ctx.rent_agreement_account;
    rent_data.status = AgreementStatus::DepositPending;
    rent_data.owner_pubkey = ctx.owner;
    rent_data.tenant_pubkey = ctx.tenant;
    rent_data.security_deposit = security_deposit;
    rent_data.rent_amount = rent_amount;
    rent_data.duration = duration;
    rent_data.start_month = start_month;
    rent_data.start_year = start_year;
    rent_data.remaining_payments = duration;
    rent_data.remaining_security_deposit = 0;
    rent_data.duration_extension_request = 0;
    Ok(())
}

/// Records the tenant's security deposit and starts the lease. Refused with
/// `SecurityAlreadyDeposited` on any record that is not waiting for its
/// deposit; a refused call writes nothing.
pub fn deposit_security(ctx: &mut DepositSecurity, security_deposit_amount: u64) -> (r: Result<
    (),
    ErrorCode,
>)
    ensures
        r is Ok <==> old(ctx).rent_agreement_account.status == AgreementStatus::DepositPending,
        r is Err ==> r == Err::<(), ErrorCode>(ErrorCode::SecurityAlreadyDeposited),
        r is Err ==> *final(ctx) == *old(ctx),
        (r, final(ctx).rent_agreement_account) == deposit_outcome(
            old(ctx).rent_agreement_account,
            security_deposit_amount,
        ),
        final(ctx).tenant == old(ctx).tenant,
{
    let rent_data = &mut ctx.rent_agreement_account;
    if !rent_data.is_security_deposit_pending() {
        return Err(ErrorCode::SecurityAlreadyDeposited);
    }
    rent_data.remaining_security_deposit = security_deposit_amount;
    rent_data.status = AgreementStatus::Active;
    Ok(())
}

impl RentAgreementAccount {
    /// Is the tenant's security deposit still to be made?
    pub fn is_security_deposit_pending(&self) -> (r: bool)
        ensures
            r == (self.status == AgreementStatus::DepositPending),
    {
        self.status == AgreementStatus::DepositPending
    }

    /// Is the agreement complete, every payment made for the agreed duration?
    pub fn is_completed(&self) -> (r: bool)
        ensures
            r == (self.status == AgreementStatus::Completed),
    {
        self.status == AgreementStatus::Completed
    }

    /// Is the agreement terminated?
    pub fn is_terminated(&self) -> (r: bool)
        ensures
            r == (self.status == AgreementStatus::Terminated),
    {
        self.status == AgreementStatus::Terminated
    }
}

} // verus!
