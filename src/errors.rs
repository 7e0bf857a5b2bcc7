use vstd::prelude::*;

verus! {

/// Every way a presale operation can be turned down. An operation that
/// returns one of these has changed nothing.
#[derive(PartialEq, Eq, Structural, Clone, Copy, Debug)]
pub enum PresaleError {
    Unauthorized,
    NotAllowed,
    MathOverflow,
    AlreadyMarked,
    PresaleNotStarted,
    PresaleEnded,
    TokenAmountMismatch,
    InsufficientFund,
    PresaleNotEnded,
    HardCapped,
    NoFundsToRefund,
    PresaleStillOngoing,
    SoftcapReached,
    CalculationError,
    ExceedsMaxTokenPerAddress,
    NoTokensToClaim,
    InsufficientPresaleTokens,
}

impl PresaleError {
    /// A human-readable description of the error.
    pub fn message(&self) -> (r: &'static str) {
        match self {
            PresaleError::Unauthorized => "You are not authorized to perform this action.",
            PresaleError::NotAllowed => "Not allowed",
            PresaleError::MathOverflow => "Math operation overflow",
            PresaleError::AlreadyMarked => "Already marked",
            PresaleError::PresaleNotStarted => "Presale not started yet",
            PresaleError::PresaleEnded => "Presale already ended",
            PresaleError::TokenAmountMismatch => "Token amount mismatch",
            PresaleError::InsufficientFund => "Insufficient funds",
            PresaleError::PresaleNotEnded => "Presale not ended yet",
            PresaleError::HardCapped => "Presale already ended",
            PresaleError::NoFundsToRefund => "No funds to refund",
            PresaleError::PresaleStillOngoing => "Presale is still ongoing",
            PresaleError::SoftcapReached => "Softcap has been reached, refunds are not possible",
            PresaleError::CalculationError => "Error in token amount calculation",
            PresaleError::ExceedsMaxTokenPerAddress => "Purchase would exceed maximum tokens per address",
            PresaleError::NoTokensToClaim => "No tokens to claim",
            PresaleError::InsufficientPresaleTokens => "Insufficient presale tokens",
        }
    }
}

} // verus!
