//! Deleting a card that holds nothing.

use vstd::prelude::*;
use crate::address::Address;
use crate::errors::GiftCardError;
use crate::events::GiftCardDeleted;
use crate::state::GiftCard;

verus! {

/// The accounts of a deletion.
#[derive(Debug, PartialEq, Eq)]
pub struct DeleteGiftCard {
    /// The card as it is stored.
    pub gift_card: GiftCard,
    /// Who signed the instruction, and gets the card's storage deposit back.
    pub owner: Address,
}

impl DeleteGiftCard {
    /// The accounts fit the instruction: the card is the one that it names, it is the
    /// signer's, and it holds nothing.
    pub open spec fn constrained(self, card_id: u64) -> bool {
        &&& self.gift_card.card_id == card_id
        &&& self.gift_card.owner == self.owner
        &&& self.gift_card.balance == 0
    }

    /// Checks that the accounts fit the instruction. The checks are made in this order,
    /// and the first that fails names the error: the card is the one named, it is the
    /// signer's, and it holds nothing.
    pub fn check(&self, card_id: u64) -> (r: Result<(), GiftCardError>)
        ensures
            r.err() == Some(GiftCardError::InvalidCardId) <==> self.gift_card.card_id != card_id,
            r.err() == Some(GiftCardError::Unauthorized) <==> (self.gift_card.card_id == card_id
                && self.gift_card.owner != self.owner),
            r.err() == Some(GiftCardError::HasBalance) <==> (self.gift_card.card_id == card_id
                && self.gift_card.owner == self.owner && self.gift_card.balance > 0),
            r is Ok <==> self.constrained(card_id),
    {
        if !(self.gift_card.card_id == card_id) {
            return Err(GiftCardError::InvalidCardId);
        }
        if !(self.gift_card.owner == self.owner) {
            return Err(GiftCardError::Unauthorized);
        }
        if !(self.gift_card.balance == 0) {
            return Err(GiftCardError::HasBalance);
        }
        Ok(())
    }
}

/// Deletes the card `card_id`: it goes through, with the event to announce, only for a
/// card that holds nothing, and only for its owner.
///
/// The checks are made in this order, and the first that fails names the error: the card
/// is the one named, it is the signer's, and it holds nothing. A refusal announces
/// nothing, and the card stays.
pub fn handler_delete_gift_card(
    ctx: &DeleteGiftCard,
    card_id: u64,
) -> (r: Result<GiftCardDeleted, GiftCardError>)
    ensures
        r.err() == Some(GiftCardError::InvalidCardId) <==> ctx.gift_card.card_id != card_id,
        r.err() == Some(GiftCardError::Unauthorized) <==> (ctx.gift_card.card_id == card_id
            && ctx.gift_card.owner != ctx.owner),
        r.err() == Some(GiftCardError::HasBalance) <==> (ctx.gift_card.card_id == card_id
            && ctx.gift_card.owner == ctx.owner && ctx.gift_card.balance > 0),
        r.ok() == Some(GiftCardDeleted { card_id }) <==> ctx.constrained(card_id),
        r is Ok <==> ctx.constrained(card_id),
        ctx.gift_card.balance > 0 ==> r is Err,
{
    match ctx.check(card_id) {
        Err(e) => Err(e),
        Ok(()) => Ok(GiftCardDeleted { card_id: ctx.gift_card.card_id }),
    }
}

} // verus!
