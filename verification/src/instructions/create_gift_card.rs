//! Creating a card and funding its escrow.

use vstd::prelude::*;
use crate::address::Address;
use crate::errors::GiftCardError;
use crate::events::GiftCardCreated;
use crate::state::{GiftCard, GiftCardView};
use crate::transfer::TransferChecked;

verus! {

/// The accounts of a creation.
#[derive(Clone, Copy, Debug, PartialEq, Eq)]
pub struct CreateGiftCard {
    /// The token account, new and empty, that will hold the card's tokens.
    pub escrow_token_account: Address,
    /// The mint of the tokens.
    pub token_mint: Address,
    /// The decimals of that mint.
    pub decimals: u8,
    /// The token account that the deposit comes from.
    pub gift_giver_token_account: Address,
    /// Who creates the card, pays the deposit and owns the card from then on.
    pub gift_giver: Address,
    /// Bump seed of the new card's address.
    pub bump: u8,
}

/// A creation that went through.
#[derive(Debug, PartialEq, Eq)]
pub struct CreateOutcome {
    /// The deposit, for the ledger to carry out.
    pub transfer: TransferChecked,
    /// The new card, to be stored once the deposit is made.
    pub gift_card: GiftCard,
    /// The event to announce then.
    pub event: GiftCardCreated,
}

impl CreateGiftCard {
    /// The card that a creation with these accounts and arguments makes: it is the
    /// giver's, holds the deposit and admits every merchant.
    pub open spec fn new_card(
        self,
        card_id: u64,
        amount: u64,
        unlock_date: i64,
        refund_date: i64,
    ) -> GiftCardView {
        GiftCardView {
            card_id,
            owner: self.gift_giver,
            balance: amount as nat,
            unlock_date: unlock_date as int,
            refund_date: refund_date as int,
            token_mint: self.token_mint,
            escrow_token_account: self.escrow_token_account,
            bump: self.bump,
            decimals: self.decimals,
            allowed_merchants: Seq::empty(),
        }
    }

    /// The deposit: `amount` from the giver's token account into the escrow, on the
    /// giver's word.
    pub open spec fn deposit(self, amount: u64) -> TransferChecked {
        TransferChecked {
            from: self.gift_giver_token_account,
            mint: self.token_mint,
            to: self.escrow_token_account,
            authority: self.gift_giver,
            amount,
            decimals: self.decimals,
        }
    }

    /// What a creation that goes through hands back: the deposit, the new card and the
    /// event.
    pub open spec fn created(
        self,
        card_id: u64,
        amount: u64,
        unlock_date: i64,
        refund_date: i64,
        out: CreateOutcome,
    ) -> bool {
        &&& out.transfer == self.deposit(amount)
        &&& out.gift_card@ == self.new_card(card_id, amount, unlock_date, refund_date)
        &&& out.event == (GiftCardCreated {
            card_id,
            owner: self.gift_giver,
            balance: amount,
            unlock_date,
            refund_date,
        })
    }
}

/// Creates a card that holds `amount` and is redeemable from `unlock_date` until
/// `refund_date`.
///
/// The checks are made in this order, and the first that fails names the error: at `now`
/// the unlock date has not passed, and the refund date lies after the unlock date. The new
/// card is valid.
pub fn handler_create_gift_card(
    ctx: &CreateGiftCard,
    card_id: u64,
    amount: u64,
    unlock_date: i64,
    refund_date: i64,
    now: i64,
) -> (r: Result<CreateOutcome, GiftCardError>)
    ensures
        r.err() == Some(GiftCardError::InvalidUnlockDate) <==> unlock_date < now,
        r.err() == Some(GiftCardError::InvalidRefundDate) <==> (now <= unlock_date
            && refund_date <= unlock_date),
        r is Ok <==> now <= unlock_date < refund_date,
        r matches Ok(out) ==> ctx.created(card_id, amount, unlock_date, refund_date, out),
        r matches Ok(out) ==> out.gift_card.wf(),
{
    if !(unlock_date >= now) {
        return Err(GiftCardError::InvalidUnlockDate);
    }
    if !(refund_date > unlock_date) {
        return Err(GiftCardError::InvalidRefundDate);
    }
    let gift_card = GiftCard {
        card_id,
        owner: ctx.gift_giver,
        balance: amount,
        unlock_date,
        refund_date,
        token_mint: ctx.token_mint,
        escrow_token_account: ctx.escrow_token_account,
        bump: ctx.bump,
        decimals: ctx.decimals,
        allowed_merchants: Vec::new(),
    };
    let transfer = TransferChecked {
        from: ctx.gift_giver_token_account,
        mint: ctx.token_mint,
        to: ctx.escrow_token_account,
        authority: ctx.gift_giver,
        amount,
        decimals: ctx.decimals,
    };
    let event = GiftCardCreated {
        card_id,
        owner: ctx.gift_giver,
        balance: amount,
        unlock_date,
        refund_date,
    };
    Ok(CreateOutcome { transfer, gift_card, event })
}

} // verus!
