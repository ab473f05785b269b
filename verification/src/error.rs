use vstd::prelude::*;

verus! {

/// Why a transition was rejected.
#[derive(Clone, Copy, Debug, PartialEq, Eq, Structural)]
pub enum AppError {
    /// The claimed signer did not sign the transaction.
    MissingRequiredSignature,
    /// An account's address is not the expected public key.
    InvalidEqPubkey,
    /// An account is not owned by the expected program.
    InvalidOwner,
    /// An account's address is not the canonical derivation for its purpose.
    InvalidDerivedKey,
    /// A record has the wrong length, or its bytes do not decode.
    InvalidAccountData,
    /// Scaling an amount, or adding it to the supply, leaves 64 bits.
    ArithmeticOverflow,
    /// A burn asks for more than the supply holds.
    ArithmeticUnderflow,
    /// The external ledger rejected a call.
    ExternalOperationFailed,
    /// Fewer accounts were supplied than the transition reads.
    NotEnoughAccountKeys,
    /// The instruction bytes do not decode.
    InvalidInstructionData,
}

impl AppError {
    /// The error's name, as text.
    pub fn name(&self) -> (s: &'static str)
        ensures
            s@ == spec_error_name(*self),
    {
        match self {
            AppError::MissingRequiredSignature => "MissingRequiredSignature",
            AppError::InvalidEqPubkey => "InvalidEqPubkey",
            AppError::InvalidOwner => "InvalidOwner",
            AppError::InvalidDerivedKey => "InvalidDerivedKey",
            AppError::InvalidAccountData => "InvalidAccountData",
            AppError::ArithmeticOverflow => "ArithmeticOverflow",
            AppError::ArithmeticUnderflow => "ArithmeticUnderflow",
            AppError::ExternalOperationFailed => "ExternalOperationFailed",
            AppError::NotEnoughAccountKeys => "NotEnoughAccountKeys",
            AppError::InvalidInstructionData => "InvalidInstructionData",
        }
    }
}

/// The name of each error.
pub open spec fn spec_error_name(e: AppError) -> Seq<char> {
    match e {
        AppError::MissingRequiredSignature => "MissingRequiredSignature"@,
        AppError::InvalidEqPubkey => "InvalidEqPubkey"@,
        AppError::InvalidOwner => "InvalidOwner"@,
        AppError::InvalidDerivedKey => "InvalidDerivedKey"@,
        AppError::InvalidAccountData => "InvalidAccountData"@,
        AppError::ArithmeticOverflow => "ArithmeticOverflow"@,
        AppError::ArithmeticUnderflow => "ArithmeticUnderflow"@,
        AppError::ExternalOperationFailed => "ExternalOperationFailed"@,
        AppError::NotEnoughAccountKeys => "NotEnoughAccountKeys"@,
        AppError::InvalidInstructionData => "InvalidInstructionData"@,
    }
}

} // verus!
