//! The failures that the engine reports to its caller.

use vstd::prelude::*;

verus! {

/// Why the engine refused an operation.
#[derive(Clone, Copy, Debug, PartialEq, Eq, Structural)]
pub enum BondError {
    /// Creation asked for a maturity that is not after the ledger clock.
    MaturityInPast,
    /// Creation principal is not above the threshold.
    InvalidAmount,
    /// Reserved: no workflow raises it.
    BondNotActive,
    /// Redemption or rebalancing attempted before maturity.
    BondNotMatured,
    /// The claim exceeds a balance, or a pool lacks the liquidity asked of it.
    InsufficientTokens,
    /// A checked arithmetic step left the 64-bit unsigned range.
    MathOverflow,
    /// The cooling account is in a lifecycle state that rebalancing cannot touch.
    InvalidStakeState,
    /// A stake split would leave a piece below the minimum delegation.
    InsufficientStakeAmount,
}

/// Number that the first error kind is reported under; the others follow in
/// declaration order.
pub const ERROR_CODE_OFFSET: u32 = 6000;

impl BondError {
    /// Position of the kind in the taxonomy, counted from zero.
    pub open spec fn index(self) -> int {
        match self {
            BondError::MaturityInPast => 0,
            BondError::InvalidAmount => 1,
            BondError::BondNotActive => 2,
            BondError::BondNotMatured => 3,
            BondError::InsufficientTokens => 4,
            BondError::MathOverflow => 5,
            BondError::InvalidStakeState => 6,
            BondError::InsufficientStakeAmount => 7,
        }
    }

    /// The numeric code surfaced to the caller.
    pub fn code(&self) -> (c: u32)
        ensures
            c == ERROR_CODE_OFFSET + self.index(),
    {
        match self {
            BondError::MaturityInPast => 6000,
            BondError::InvalidAmount => 6001,
            BondError::BondNotActive => 6002,
            BondError::BondNotMatured => 6003,
            BondError::InsufficientTokens => 6004,
            BondError::MathOverflow => 6005,
            BondError::InvalidStakeState => 6006,
            BondError::InsufficientStakeAmount => 6007,
        }
    }

    /// The text that accompanies each kind.
    pub open spec fn message_text(self) -> Seq<char> {
        match self {
            BondError::MaturityInPast => "Maturity timestamp must be in the future"@,
            BondError::InvalidAmount => "Amount must be greater than 1 SOL (to account for fees)"@,
            BondError::BondNotActive => "Bond is not active"@,
            BondError::BondNotMatured => "Bond has not yet matured"@,
            BondError::InsufficientTokens => "Insufficient tokens"@,
            BondError::MathOverflow => "Math overflow"@,
            BondError::InvalidStakeState => "Stake account is not in the correct state"@,
            BondError::InsufficientStakeAmount =>
                "Stake redemption amount below minimum delegation. Use lamport redemption instead."@,
        }
    }

    /// Human-readable description of the failure.
    pub fn message(&self) -> (s: &'static str)
        ensures
            s@ == self.message_text(),
    {
        match self {
            BondError::MaturityInPast => "Maturity timestamp must be in the future",
            BondError::InvalidAmount => "Amount must be greater than 1 SOL (to account for fees)",
            BondError::BondNotActive => "Bond is not active",
            BondError::BondNotMatured => "Bond has not yet matured",
            BondError::InsufficientTokens => "Insufficient tokens",
            BondError::MathOverflow => "Math overflow",
            BondError::InvalidStakeState => "Stake account is not in the correct state",
            BondError::InsufficientStakeAmount =>
                "Stake redemption amount below minimum delegation. Use lamport redemption instead.",
        }
    }
}

/// Why an instruction as a whole was refused: one of the engine's own kinds,
/// or a failure of the host's checks around it.
#[derive(Clone, Copy, Debug, PartialEq, Eq, Structural)]
pub enum InstructionError {
    /// The engine refused the operation.
    Bond(BondError),
    /// An account handed to the instruction is not the one the ledger records.
    ConstraintViolated,
    /// The staking subsystem's answer is missing or has the wrong length.
    InvalidInstructionData,
    /// The answer on record was not written by the staking subsystem.
    IncorrectProgramId,
    /// The payload of a stake account cannot be decoded.
    InvalidAccountData,
    /// The warm-up of a delegation cannot be summed within 64 bits.
    ArithmeticOverflow,
}

} // verus!
