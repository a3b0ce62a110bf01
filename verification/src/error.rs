use vstd::prelude::*;

verus! {

/// Typed failures of the escrow program.
///
/// Every failing path of the codec and of the processor returns one of
/// these; the host runtime discards the whole invocation on failure, so a
/// returned error means no account was changed.
#[derive(Clone, Copy, Debug, PartialEq, Eq, Structural)]
pub enum EscrowError {
    /// Unknown opcode, truncated payload, or a supplied escrow address
    /// that does not match the derived one.
    InvalidInstructionData,
    /// The requested deposit is below the storage-exemption minimum, or
    /// the payer cannot fund the new escrow account.
    InsufficientFunds,
    /// The escrow account is not owned by this program.
    IncorrectProgramId,
    /// A balance mutation would leave the unsigned 64-bit range.
    ArithmeticOverflow,
    /// The escrow record does not have the expected two-byte layout.
    InvalidAccountData,
    /// The escrow record's initialized flag is not set.
    UninitializedAccount,
    /// The derivation collaborator yields no valid address for the seeds.
    InvalidSeeds,
    /// The account-creation collaborator found existing state at the
    /// derived address.
    AccountAlreadyInUse,
}

} // verus!
