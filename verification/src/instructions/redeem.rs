//! Redeeming part of a card to a merchant.

use vstd::prelude::*;
use crate::address::Address;
use crate::errors::GiftCardError;
use crate::events::GiftCardRedeemed;
use crate::state::GiftCard;
use crate::transfer::{card_seeds, EscrowAuthority, TransferChecked};

verus! {

/// The accounts of a redemption.
#[derive(Debug, PartialEq, Eq)]
pub struct Redeem {
    /// The address of the card.
    pub gift_card_key: Address,
    /// The card as it is stored.
    pub gift_card: GiftCard,
    /// The token account to pay from.
    pub escrow_token_account: Address,
    /// The mint of the tokens.
    pub token_mint: Address,
    /// The token account to pay into.
    pub merchant_token_account: Address,
    /// The merchant who redeems.
    pub merchant: Address,
    /// Who signed the instruction. Only the card's owner authorizes a redemption.
    pub owner: Address,
}

/// A redemption that went through.
#[derive(Debug, PartialEq, Eq)]
pub struct RedeemOutcome {
    /// The payment, for the ledger to carry out.
    pub transfer: TransferChecked,
    /// The card's authority over its escrow, to sign the payment with.
    pub authority: EscrowAuthority,
    /// The card as it stands once the payment is made.
    pub gift_card: GiftCard,
    /// The event to announce then.
    pub event: GiftCardRedeemed,
}

impl Redeem {
    /// The accounts fit the instruction: the card is the one that it names, the token
    /// account to pay from is the card's escrow, and the signer is the card's owner.
    pub open spec fn constrained(self, card_id: u64) -> bool {
        &&& self.gift_card.card_id == card_id
        &&& self.escrow_token_account == self.gift_card.escrow_token_account
        &&& self.owner == self.gift_card.owner
    }

    /// The payment: `amount` from the escrow to the merchant's token account, on the
    /// card's own word.
    pub open spec fn payment(self, amount: u64) -> TransferChecked {
        TransferChecked {
            from: self.escrow_token_account,
            mint: self.token_mint,
            to: self.merchant_token_account,
            authority: self.gift_card_key,
            amount,
            decimals: self.gift_card.decimals,
        }
    }

    /// What a redemption of `amount` that goes through hands back: the payment, the card's
    /// authority, the card with `amount` less on it and otherwise as before, and the event.
    pub open spec fn redeemed(self, card_id: u64, amount: u64, out: RedeemOutcome) -> bool {
        &&& amount <= self.gift_card.balance
        &&& out.transfer == self.payment(amount)
        &&& out.authority@ == card_seeds(self.gift_card.owner, card_id, self.gift_card.bump)
        &&& out.gift_card@ == self.gift_card@.with_balance(
            (self.gift_card.balance - amount) as nat,
        )
        &&& out.event == (GiftCardRedeemed {
            card_id,
            gift_card: self.gift_card_key,
            merchant: self.merchant,
            amount,
            remaining_balance: (self.gift_card.balance - amount) as u64,
        })
    }

    /// Checks that the accounts fit the instruction. The checks are made in this order,
    /// and the first that fails names the error: the card is the one named, the token
    /// account to pay from is the card's escrow, and the signer is the card's owner.
    pub fn check(&self, card_id: u64) -> (r: Result<(), GiftCardError>)
        ensures
            r.err() == Some(GiftCardError::InvalidCardId) <==> self.gift_card.card_id != card_id,
            r.err() == Some(GiftCardError::Unauthorized) <==> (self.gift_card.card_id == card_id
                && (self.escrow_token_account != self.gift_card.escrow_token_account
                || self.owner != self.gift_card.owner)),
            r is Ok <==> self.constrained(card_id),
    {
        if !(self.gift_card.card_id == card_id) {
            return Err(GiftCardError::InvalidCardId);
        }
        if !(self.escrow_token_account == self.gift_card.escrow_token_account) {
            return Err(GiftCardError::Unauthorized);
        }
        if !(self.owner == self.gift_card.owner) {
            return Err(GiftCardError::Unauthorized);
        }
        Ok(())
    }
}

/// Redeems `amount` from the card to the merchant at `now`.
///
/// The checks are made in this order, and the first that fails names the error: the card
/// is unlocked, it has not expired, it holds `amount`, and it admits the merchant. A valid
/// card is never redeemed from its refund date on. That the signer is the card's owner is
/// for [`Redeem::check`] to find before the handler runs.
pub fn handler_redeem(
    ctx: &Redeem,
    card_id: u64,
    amount: u64,
    now: i64,
) -> (r: Result<RedeemOutcome, GiftCardError>)
    ensures
        r.err() == Some(GiftCardError::GiftCardLocked) <==> now < ctx.gift_card.unlock_date,
        r.err() == Some(GiftCardError::GiftCardExpired) <==> (ctx.gift_card.unlock_date <= now
            && ctx.gift_card.refund_date <= now),
        r.err() == Some(GiftCardError::InsufficientBalance) <==> (ctx.gift_card.unlock_date <= now
            && now < ctx.gift_card.refund_date && ctx.gift_card.balance < amount),
        r.err() == Some(GiftCardError::MerchantNotAllowed) <==> (ctx.gift_card.unlock_date <= now
            && now < ctx.gift_card.refund_date && amount <= ctx.gift_card.balance
            && !ctx.gift_card@.admits(ctx.merchant)),
        r is Ok <==> ctx.gift_card@.redeemable(ctx.merchant, amount as nat, now as int),
        r matches Ok(out) ==> ctx.redeemed(card_id, amount, out),
        r matches Ok(out) ==> (ctx.gift_card.wf() ==> out.gift_card.wf()),
        ctx.gift_card.wf() && ctx.gift_card.refund_date <= now
            ==> r.err() == Some(GiftCardError::GiftCardExpired),
{
    let gift_card = &ctx.gift_card;
    if !(now >= gift_card.unlock_date) {
        return Err(GiftCardError::GiftCardLocked);
    }
    if !(now < gift_card.refund_date) {
        return Err(GiftCardError::GiftCardExpired);
    }
    if !(gift_card.balance >= amount) {
        return Err(GiftCardError::InsufficientBalance);
    }
    if !gift_card.admits(&ctx.merchant) {
        return Err(GiftCardError::MerchantNotAllowed);
    }
    let new_balance: u64 = gift_card.balance - amount;
    let authority = EscrowAuthority::new(gift_card.owner, card_id, gift_card.bump);
    let transfer = TransferChecked {
        from: ctx.escrow_token_account,
        mint: ctx.token_mint,
        to: ctx.merchant_token_account,
        authority: ctx.gift_card_key,
        amount,
        decimals: gift_card.decimals,
    };
    let event = GiftCardRedeemed {
        card_id,
        gift_card: ctx.gift_card_key,
        merchant: ctx.merchant,
        amount,
        remaining_balance: new_balance,
    };
    Ok(RedeemOutcome { transfer, authority, gift_card: gift_card.with_balance(new_balance), event })
}

} // verus!
