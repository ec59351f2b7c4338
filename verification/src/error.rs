//! The ways in which an operation of the bridge can fail.

use vstd::prelude::*;

verus! {

/// Why an operation was refused. Every fallible operation of this crate
/// returns one of these; none of them panics.
#[derive(Clone, Copy, Debug, PartialEq, Eq, Structural)]
pub enum ErrorKind {
    /// An argument is outside what the operation accepts.
    InvalidInput,
    /// Nothing is configured for the token.
    UnknownToken,
    /// The provider's tracked balance does not exceed the requested amount.
    InsufficientLiquidity,
    /// A sum or product does not fit in 256 bits.
    Overflow,
    /// A difference would be negative.
    Underflow,
    /// The signature is not exactly 65 bytes long.
    WrongSignatureLength,
    /// `r`, `s` and `v` do not form a recoverable signature.
    InvalidSignature,
    /// No public key can be recovered from the signature and the hash.
    RecoveryFailed,
    /// The recovered signer is not the trusted signer.
    InvalidSigner,
    /// The withdrawal digest was consumed by an earlier call.
    AlreadyUsed,
    /// The reward distributor refused to update the rewards.
    StakingUpdateFailed,
    /// The four percentages do not add up to 100.
    BadPercentageSum,
    /// A swap to an address was asked for without a target address.
    MissingTargetAddress,
}

impl ErrorKind {
    /// The fixed text that goes with each kind.
    pub open spec fn spec_message(self) -> Seq<char> {
        match self {
            ErrorKind::InvalidInput => "invalid input"@,
            ErrorKind::UnknownToken => "unknown token"@,
            ErrorKind::InsufficientLiquidity => "not enough liquidity"@,
            ErrorKind::Overflow => "arithmetic overflow"@,
            ErrorKind::Underflow => "arithmetic underflow"@,
            ErrorKind::WrongSignatureLength => "signature must be 65 bytes"@,
            ErrorKind::InvalidSignature => "malformed signature"@,
            ErrorKind::RecoveryFailed => "public key recovery failed"@,
            ErrorKind::InvalidSigner => "invalid signer"@,
            ErrorKind::AlreadyUsed => "message already used"@,
            ErrorKind::StakingUpdateFailed => "error staking rewards"@,
            ErrorKind::BadPercentageSum => "taxes must add to 100"@,
            ErrorKind::MissingTargetAddress => "target address is required"@,
        }
    }

    /// The static message carried by this kind of failure.
    pub fn message(&self) -> (text: &'static str)
        ensures
            text@ == self.spec_message(),
    {
        match self {
            ErrorKind::InvalidInput => "invalid input",
            ErrorKind::UnknownToken => "unknown token",
            ErrorKind::InsufficientLiquidity => "not enough liquidity",
            ErrorKind::Overflow => "arithmetic overflow",
            ErrorKind::Underflow => "arithmetic underflow",
            ErrorKind::WrongSignatureLength => "signature must be 65 bytes",
            ErrorKind::InvalidSignature => "malformed signature",
            ErrorKind::RecoveryFailed => "public key recovery failed",
            ErrorKind::InvalidSigner => "invalid signer",
            ErrorKind::AlreadyUsed => "message already used",
            ErrorKind::StakingUpdateFailed => "error staking rewards",
            ErrorKind::BadPercentageSum => "taxes must add to 100",
            ErrorKind::MissingTargetAddress => "target address is required",
        }
    }
}

} // verus!
