//! The reasons for which an instruction is turned down.

use vstd::prelude::*;

verus! {

/// Why an instruction was refused. A refused instruction changes nothing and moves nothing.
#[derive(Clone, Copy, Debug, PartialEq, Eq, Structural)]
pub enum GiftCardError {
    /// The unlock date of a new card lies in the past.
    InvalidUnlockDate,
    /// The refund date of a new card is not after its unlock date.
    InvalidRefundDate,
    /// The card is not yet redeemable.
    GiftCardLocked,
    /// The card is no longer redeemable.
    GiftCardExpired,
    /// The card has a list of merchants and the merchant is not on it.
    MerchantNotAllowed,
    /// The card holds less than the amount asked for.
    InsufficientBalance,
    /// The caller is not the card's owner, or an account is not the card's own.
    Unauthorized,
    /// The list of merchants is longer than a card can hold.
    TooManyMerchants,
    /// The refund date has not come yet.
    RefundNotAvailable,
    /// The card holds nothing that could be refunded.
    NoBalanceToRefund,
    /// The card is not the one that the instruction names.
    InvalidCardId,
    /// The card still holds tokens.
    HasBalance,
}

impl GiftCardError {
    /// The text shown for each error.
    pub open spec fn message_text(self) -> Seq<char> {
        match self {
            GiftCardError::InvalidUnlockDate => "Invalid unlock date"@,
            GiftCardError::InvalidRefundDate => "Invalid refund date"@,
            GiftCardError::GiftCardLocked => "Gift card is locked"@,
            GiftCardError::GiftCardExpired => "Gift card has expired"@,
            GiftCardError::MerchantNotAllowed => "Merchant not allowed"@,
            GiftCardError::InsufficientBalance => "Insufficient balance"@,
            GiftCardError::Unauthorized => "Unauthorized"@,
            GiftCardError::TooManyMerchants => "Too many merchants"@,
            GiftCardError::RefundNotAvailable => "Refund not available"@,
            GiftCardError::NoBalanceToRefund => "No balance to refund"@,
            GiftCardError::InvalidCardId => "Invalid card ID"@,
            GiftCardError::HasBalance => "Gift card still has balance"@,
        }
    }

    /// The text shown for this error.
    pub fn message(&self) -> (text: &'static str)
        ensures
            text@ == self.message_text(),
    {
        match self {
            GiftCardError::InvalidUnlockDate => "Invalid unlock date",
            GiftCardError::InvalidRefundDate => "Invalid refund date",
            GiftCardError::GiftCardLocked => "Gift card is locked",
            GiftCardError::GiftCardExpired => "Gift card has expired",
            GiftCardError::MerchantNotAllowed => "Merchant not allowed",
            GiftCardError::InsufficientBalance => "Insufficient balance",
            GiftCardError::Unauthorized => "Unauthorized",
            GiftCardError::TooManyMerchants => "Too many merchants",
            GiftCardError::RefundNotAvailable => "Refund not available",
            GiftCardError::NoBalanceToRefund => "No balance to refund",
            GiftCardError::InvalidCardId => "Invalid card ID",
            GiftCardError::HasBalance => "Gift card still has balance",
        }
    }
}

} // verus!
