//! Taking back what is left on a card once it has expired.

use vstd::prelude::*;
use crate::address::Address;
use crate::errors::GiftCardError;
use crate::events::BalanceRefunded;
use crate::state::GiftCard;
use crate::transfer::{card_seeds, EscrowAuthority, TransferChecked};

verus! {

/// The accounts of a refund.
#[derive(Debug, PartialEq, Eq)]
pub struct Refund {
    /// The address of the card.
    pub gift_card_key: Address,
    /// The card as it is stored.
    pub gift_card: GiftCard,
    /// The token account to pay from.
    pub escrow_token_account: Address,
    /// The mint of the tokens.
    pub token_mint: Address,
    /// The token account to pay into: the owner's.
    pub gift_giver_token_account: Address,
    /// Who signed the instruction.
    pub owner: Address,
}

/// A refund that went through.
#[derive(Debug, PartialEq, Eq)]
pub struct RefundOutcome {
    /// The payment, for the ledger to carry out.
    pub transfer: TransferChecked,
    /// The card's authority over its escrow, to sign the payment with.
    pub authority: EscrowAuthority,
    /// The card as it stands once the payment is made.
    pub gift_card: GiftCard,
    /// The event to announce then.
    pub event: BalanceRefunded,
}

impl Refund {
    /// The accounts fit the instruction: the card is the one that it names, and the token
    /// account to pay from is the card's escrow.
    pub open spec fn constrained(self, card_id: u64) -> bool {
        &&& self.gift_card.card_id == card_id
        &&& self.escrow_token_account == self.gift_card.escrow_token_account
    }

    /// The payment: all that the card holds, from the escrow to the giver's token account,
    /// on the card's own word.
    pub open spec fn payment(self) -> TransferChecked {
        TransferChecked {
            from: self.escrow_token_account,
            mint: self.token_mint,
            to: self.gift_giver_token_account,
            authority: self.gift_card_key,
            amount: self.gift_card.balance,
            decimals: self.gift_card.decimals,
        }
    }

    /// What a refund that goes through hands back: the payment of the whole balance, the
    /// card's authority, the card with nothing on it and otherwise as before, and the event.
    pub open spec fn refunded(self, card_id: u64, out: RefundOutcome) -> bool {
        &&& out.transfer == self.payment()
        &&& out.authority@ == card_seeds(self.gift_card.owner, card_id, self.gift_card.bump)
        &&& out.gift_card@ == self.gift_card@.with_balance(0)
        &&& out.event == (BalanceRefunded {
            card_id,
            gift_card: self.gift_card_key,
            amount: self.gift_card.balance,
            remaining_balance: 0,
        })
    }

    /// Checks that the accounts fit the instruction. The checks are made in this order,
    /// and the first that fails names the error: the card is the one named, and the token
    /// account to pay from is the card's escrow.
    pub fn check(&self, card_id: u64) -> (r: Result<(), GiftCardError>)
        ensures
            r.err() == Some(GiftCardError::InvalidCardId) <==> self.gift_card.card_id != card_id,
            r.err() == Some(GiftCardError::Unauthorized) <==> (self.gift_card.card_id == card_id
                && self.escrow_token_account != self.gift_card.escrow_token_account),
            r is Ok <==> self.constrained(card_id),
    {
        if !(self.gift_card.card_id == card_id) {
            return Err(GiftCardError::InvalidCardId);
        }
        if !(self.escrow_token_account == self.gift_card.escrow_token_account) {
            return Err(GiftCardError::Unauthorized);
        }
        Ok(())
    }
}

/// Refunds all that is left on the card to its owner at `now`.
///
/// The checks are made in this order, and the first that fails names the error: the signer
/// is the card's owner, the refund date has come, and the card holds something.
pub fn handler_refund(
    ctx: &Refund,
    card_id: u64,
    now: i64,
) -> (r: Result<RefundOutcome, GiftCardError>)
    ensures
        r.err() == Some(GiftCardError::Unauthorized) <==> ctx.owner != ctx.gift_card.owner,
        r.err() == Some(GiftCardError::RefundNotAvailable) <==> (ctx.owner == ctx.gift_card.owner
            && now < ctx.gift_card.refund_date),
        r.err() == Some(GiftCardError::NoBalanceToRefund) <==> (ctx.owner == ctx.gift_card.owner
            && ctx.gift_card.refund_date <= now && ctx.gift_card.balance == 0),
        r is Ok <==> ctx.gift_card@.refundable(ctx.owner, now as int),
        r matches Ok(out) ==> ctx.refunded(card_id, out),
        r matches Ok(out) ==> (ctx.gift_card.wf() ==> out.gift_card.wf()),
{
    let gift_card = &ctx.gift_card;
    if !(ctx.owner == gift_card.owner) {
        return Err(GiftCardError::Unauthorized);
    }
    if !(now >= gift_card.refund_date) {
        return Err(GiftCardError::RefundNotAvailable);
    }
    let refund_amount: u64 = gift_card.balance;
    if !(refund_amount > 0) {
        return Err(GiftCardError::NoBalanceToRefund);
    }
    let authority = EscrowAuthority::new(gift_card.owner, card_id, gift_card.bump);
    let transfer = TransferChecked {
        from: ctx.escrow_token_account,
        mint: ctx.token_mint,
        to: ctx.gift_giver_token_account,
        authority: ctx.gift_card_key,
        amount: refund_amount,
        decimals: gift_card.decimals,
    };
    let event = BalanceRefunded {
        card_id,
        gift_card: ctx.gift_card_key,
        amount: refund_amount,
        remaining_balance: 0,
    };
    Ok(RefundOutcome { transfer, authority, gift_card: gift_card.with_balance(0), event })
}

} // verus!
