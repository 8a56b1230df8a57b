use vstd::prelude::*;

verus! {

/// The failures an operation on an agreement can report. Only
/// `SecurityAlreadyDeposited` and `InvalidInstructionParameter` are raised by
/// the operations of this crate; the others belong to the dispatch layer and
/// to the payment and termination operations that are still to come.
#[derive(Clone, Copy, Debug, PartialEq, Eq, Structural)]
pub enum ErrorCode {
    InvalidInstruction,
    IncorrectPaymentAmount,
    RentAlreadyFullyPaid,
    SecurityAlreadyDeposited,
    RentAgreementTerminated,
    InvalidAgreementStatus,
    InvalidInstructionParameter,
}

/// The text logged by the host for each failure.
pub open spec fn error_message(e: ErrorCode) -> Seq<char> {
    match e {
        ErrorCode::InvalidInstruction => "Invalid Instruction"@,
        ErrorCode::IncorrectPaymentAmount => "Incorrect Payment Amount"@,
        ErrorCode::RentAlreadyFullyPaid => "Full Rent Already Paid"@,
        ErrorCode::SecurityAlreadyDeposited => "Security Amount Already Deposited"@,
        ErrorCode::RentAgreementTerminated => "Rent Agreement Already Terminated"@,
        ErrorCode::InvalidAgreementStatus => "Invalid Agreement Status"@,
        ErrorCode::InvalidInstructionParameter => "Invalid Instruction Parameter"@,
    }
}

impl ErrorCode {
    /// The human-readable message of this failure.
    pub fn message(&self) -> (r: &'static str)
        ensures
            r@ == error_message(*self),
    {
        match self {
            ErrorCode::InvalidInstruction => "Invalid Instruction",
            ErrorCode::IncorrectPaymentAmount => "Incorrect Payment Amount",
            ErrorCode::RentAlreadyFullyPaid => "Full Rent Already Paid",
            ErrorCode::SecurityAlreadyDeposited => "Security Amount Already Deposited",
            ErrorCode::RentAgreementTerminated => "Rent Agreement Already Terminated",
            ErrorCode::InvalidAgreementStatus => "Invalid Agreement Status",
            ErrorCode::InvalidInstructionParameter => "Invalid Instruction Parameter",
        }
    }
}

} // verus!
