use vstd::prelude::*;

verus! {

/// Errors of the instruction layer that the ledger reports with its own code.
#[derive(Clone, Copy, Debug, PartialEq, Eq, Structural)]
pub enum UserAccountError {
    InvalidInstruction,
}

impl UserAccountError {
    /// The numeric code under which the host reports this error.
    pub fn code(&self) -> (r: u32)
        ensures
            r == 0,
    {
        match self {
            UserAccountError::InvalidInstruction => 0,
        }
    }

    /// A readable description of the error.
    pub fn message(&self) -> (r: String)
        ensures
            r@ == "Invalid Instruction"@,
    {
        match self {
            UserAccountError::InvalidInstruction => String::from_str("Invalid Instruction"),
        }
    }
}

/// The ways in which an operation on the ledger can fail.
#[derive(Clone, Copy, Debug, PartialEq, Eq, Structural)]
pub enum LedgerError {
    /// Fewer account handles were supplied than the operation needs.
    NotEnoughAccountKeys,
    /// The operator account did not sign.
    MissingRequiredSignature,
    /// A supplied address differs from the one derived for its role.
    InvalidAccountData,
    /// A balance precondition failed, or a balance would overflow.
    InvalidArgument,
    /// Stored bytes are not a valid account record.
    Deserialization,
    /// The instruction bytes are not one of the known operations.
    InvalidInstructionData,
}

} // verus!
