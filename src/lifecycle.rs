//! Laws of the agreement's lifecycle, stated over the transitions that
//! `initialize_rent_contract` and `deposit_security` are proved to follow.
use vstd::prelude::*;

use crate::agreement::{
    deposit_outcome, initialize_outcome, zeroed_record, Identity, RentAgreementAccount,
};
use crate::error::ErrorCode;
use crate::status::{lifecycle_rank, AgreementStatus};

verus! {

/// Fresh storage is well formed.
pub proof fn lemma_zeroed_well_formed()
    ensures
        zeroed_record().well_formed(),
{
}

/// Creation keeps a well-formed record well formed.
pub proof fn lemma_initialize_preserves_well_formed(
    a: RentAgreementAccount,
    owner: Identity,
    tenant: Identity,
    security_deposit: u64,
    rent_amount: u64,
    duration: u8,
    start_month: u8,
    start_year: u16,
)
    requires
        a.well_formed(),
    ensures
        initialize_outcome(
            a,
            owner,
            tenant,
            security_deposit,
            rent_amount,
            duration,
            start_month,
            start_year,
        ).1.well_formed(),
{
}

/// A security deposit keeps a well-formed record well formed.
pub proof fn lemma_deposit_preserves_well_formed(a: RentAgreementAccount, amount: u64)
    requires
        a.well_formed(),
    ensures
        deposit_outcome(a, amount).1.well_formed(),
{
}

/// The status never moves backward: a deposit never lowers it, and creation
/// on fresh storage only raises it.
pub proof fn lemma_status_only_advances(
    a: RentAgreementAccount,
    owner: Identity,
    tenant: Identity,
    security_deposit: u64,
    rent_amount: u64,
    duration: u8,
    start_month: u8,
    start_year: u16,
    amount: u64,
)
    ensures
        lifecycle_rank(deposit_outcome(a, amount).1.status) >= lifecycle_rank(a.status),
        a.status == AgreementStatus::Uninitialized ==> lifecycle_rank(
            initialize_outcome(
                a,
                owner,
                tenant,
                security_deposit,
                rent_amount,
                duration,
                start_month,
                start_year,
            ).1.status,
        ) >= lifecycle_rank(a.status),
{
}

/// A deposit changes only the status and the deposit held. The deposit held
/// changes only in the step from waiting for it to active, and the parties
/// never change.
pub proof fn lemma_deposit_written_once(a: RentAgreementAccount, amount: u64)
    ensures
        ({
            let b = deposit_outcome(a, amount).1;
            &&& b.owner_pubkey == a.owner_pubkey
            &&& b.tenant_pubkey == a.tenant_pubkey
            &&& b.security_deposit == a.security_deposit
            &&& b.rent_amount == a.rent_amount
            &&& b.duration == a.duration
            &&& b.remaining_payments == a.remaining_payments
            &&& b.start_month == a.start_month
            &&& b.start_year == a.start_year
            &&& b.duration_extension_request == a.duration_extension_request
            &&& b.remaining_security_deposit != a.remaining_security_deposit ==> (a.status
                == AgreementStatus::DepositPending && b.status == AgreementStatus::Active)
        }),
{
}

/// A deposit on a record that waits for one makes it active and holds the
/// amount paid; a second deposit is then refused with
/// `SecurityAlreadyDeposited` and leaves the amount held as it was.
pub proof fn lemma_single_deposit(a: RentAgreementAccount, first: u64, second: u64)
    requires
        a.status == AgreementStatus::DepositPending,
    ensures
        ({
            let (r1, b) = deposit_outcome(a, first);
            let (r2, c) = deposit_outcome(b, second);
            &&& r1 is Ok
            &&& b.status == AgreementStatus::Active
            &&& b.remaining_security_deposit == first
            &&& r2 == Err::<(), ErrorCode>(ErrorCode::SecurityAlreadyDeposited)
            &&& c.remaining_security_deposit == first
            &&& c == b
        }),
{
}

/// A failed operation, of either kind, leaves every field of the record as
/// it was.
pub proof fn lemma_failure_changes_nothing(
    a: RentAgreementAccount,
    owner: Identity,
    tenant: Identity,
    security_deposit: u64,
    rent_amount: u64,
    duration: u8,
    start_month: u8,
    start_year: u16,
    amount: u64,
)
    ensures
        ({
            let (r, b) = initialize_outcome(
                a,
                owner,
                tenant,
                security_deposit,
                rent_amount,
                duration,
                start_month,
                start_year,
            );
            r is Err ==> b == a
        }),
        ({
            let (r, b) = deposit_outcome(a, amount);
            r is Err ==> b == a
        }),
{
}

} // verus!
