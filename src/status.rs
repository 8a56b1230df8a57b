use vstd::prelude::*;

verus! {

/// Lifecycle of an agreement. The stored form is one byte, the variant's
/// position in this list.
#[derive(Clone, Copy, Debug, PartialEq, Eq, Structural)]
pub enum AgreementStatus {
    Uninitialized,
    DepositPending,
    Active,
    Completed,
    Terminated,
}

/// The byte that stands for a status in the stored record.
pub open spec fn status_code(s: AgreementStatus) -> u8 {
    match s {
        AgreementStatus::Uninitialized => 0,
        AgreementStatus::DepositPending => 1,
        AgreementStatus::Active => 2,
        AgreementStatus::Completed => 3,
        AgreementStatus::Terminated => 4,
    }
}

/// The status that a stored byte stands for, if any.
pub open spec fn status_of_code(b: u8) -> Option<AgreementStatus> {
    if b == 0 {
        Some(AgreementStatus::Uninitialized)
    } else if b == 1 {
        Some(AgreementStatus::DepositPending)
    } else if b == 2 {
        Some(AgreementStatus::Active)
    } else if b == 3 {
        Some(AgreementStatus::Completed)
    } else if b == 4 {
        Some(AgreementStatus::Terminated)
    } else {
        None
    }
}

/// Position of a status in the lifecycle; `Terminated` stands beside
/// `Completed` as a second end.
pub open spec fn lifecycle_rank(s: AgreementStatus) -> nat {
    match s {
        AgreementStatus::Uninitialized => 0,
        AgreementStatus::DepositPending => 1,
        AgreementStatus::Active => 2,
        AgreementStatus::Completed => 3,
        AgreementStatus::Terminated => 3,
    }
}

impl AgreementStatus {
    /// The byte stored for this status.
    pub fn as_u8(self) -> (r: u8)
        ensures
            r == status_code(self),
    {
        match self {
            AgreementStatus::Uninitialized => 0,
            AgreementStatus::DepositPending => 1,
            AgreementStatus::Active => 2,
            AgreementStatus::Completed => 3,
            AgreementStatus::Terminated => 4,
        }
    }

    /// Reads a stored status byte; `None` for a byte that names no status.
    pub fn from_u8(b: u8) -> (r: Option<AgreementStatus>)
        ensures
            r == status_of_code(b),
            r is Some <==> b <= 4,
    {
        if b == 0 {
            Some(AgreementStatus::Uninitialized)
        } else if b == 1 {
            Some(AgreementStatus::DepositPending)
        } else if b == 2 {
            Some(AgreementStatus::Active)
        } else if b == 3 {
            Some(AgreementStatus::Completed)
        } else if b == 4 {
            Some(AgreementStatus::Terminated)
        } else {
            None
        }
    }
}

/// Reading back the byte stored for a status gives that status.
pub proof fn lemma_status_code_round_trip(s: AgreementStatus)
    ensures
        status_of_code(status_code(s)) == Some(s),
{
}

/// A byte that reads as a status is the byte stored for it.
pub proof fn lemma_status_code_unique(b: u8)
    ensures
        status_of_code(b) matches Some(s) ==> status_code(s) == b,
{
}

} // verus!
