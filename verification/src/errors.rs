use vstd::prelude::*;

verus! {

/// The payout leg of a settlement on which a transfer could not be performed.
#[derive(Clone, Copy, Debug, PartialEq, Eq, Structural)]
pub enum TransferLeg {
    Platform,
    Referrer,
    Merchant,
}

/// Why a single transfer between two funds accounts failed.
#[derive(Clone, Copy, Debug, PartialEq, Eq, Structural)]
pub enum TransferError {
    /// The source account holds less than the requested amount.
    InsufficientFunds,
    /// Crediting the destination would overflow its balance.
    DestinationOverflow,
}

/// Errors of settlement, click tracking and link toggling.
///
/// Every error is terminal for the operation that raised it: the operation
/// leaves no state change behind.
#[derive(Clone, Copy, Debug, PartialEq, Eq, Structural)]
pub enum SettlementError {
    /// The sale amount is zero.
    InvalidAmount,
    /// A record relationship is broken or a supplied address does not
    /// re-derive from the seeds embedded in the records.
    LinkageMismatch,
    /// The merchant record is marked inactive.
    InactiveMerchant,
    /// The affiliate program record is marked inactive.
    InactiveAffiliateProgram,
    /// The referral link record is marked inactive.
    InactiveReferralLink,
    /// A checked multiplication, subtraction or counter increment failed.
    ArithmeticOverflow,
    /// A transfer leg failed; carries the leg whose destination was at fault.
    TransferFailed(TransferLeg),
    /// The caller lacks the authority that the mutation demands.
    Unauthorized,
}

} // verus!
