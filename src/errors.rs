use vstd::prelude::*;

verus! {

/// Every way in which verifying or settling a bet can fail.
#[derive(Clone, Copy, Debug, PartialEq, Eq, Structural)]
pub enum DiceError {
    /// The introspected instruction is not an Ed25519 verification instruction.
    WrongInstructionType,
    /// The Ed25519 instruction references accounts.
    UnexpectedAccounts,
    /// The instruction payload does not parse, or its record is not verifiable.
    MalformedHeader,
    /// The payload holds zero or more than one signature record.
    UnexpectedSignatureCount,
    /// The record carries no signer public key.
    MissingPublicKey,
    /// The record's signer is not the house.
    SignerMismatch,
    /// The record carries no message.
    MissingMessage,
    /// The signed message is not the bet's serialization.
    MessageMismatch,
    /// The caller's signature is not 64 bytes long.
    InvalidSignatureLength,
    /// The caller's signature differs from the record's embedded one.
    SignatureMismatch,
    /// The stake is below the minimum bet.
    BetTooSmall,
    /// The chosen roll threshold lies outside the allowed range.
    RollOutOfRange,
    /// The vault cannot cover the payout.
    InsufficientVaultFunds,
    /// The payout cannot be represented.
    ArithmeticOverflow,
    /// The bet record does not exist (never created, or already resolved).
    BetNotFound,
}

} // verus!
