//! Replacing a card's list of merchants.

use vstd::prelude::*;
use crate::address::Address;
use crate::errors::GiftCardError;
use crate::events::RuleSetUpdated;
use crate::state::{copy_of, GiftCard, MAX_ALLOWED_MERCHANTS};

verus! {

/// The accounts of a change of the merchant list.
#[derive(Debug, PartialEq, Eq)]
pub struct RuleSet {
    /// The address of the card.
    pub gift_card_key: Address,
    /// The card as it is stored.
    pub gift_card: GiftCard,
    /// Who signed the instruction.
    pub owner: Address,
}

/// A change of the merchant list that went through.
#[derive(Debug, PartialEq, Eq)]
pub struct RuleSetOutcome {
    /// The card with its new list, to be stored.
    pub gift_card: GiftCard,
    /// The event to announce.
    pub event: RuleSetUpdated,
}

impl RuleSet {
    /// The accounts fit the instruction: the card is the one that it names.
    pub open spec fn constrained(self, card_id: u64) -> bool {
        self.gift_card.card_id == card_id
    }

    /// What a change that goes through hands back: the card with the whole of
    /// `allowed_merchants` in place of its old list and otherwise as before, and the event.
    pub open spec fn updated(
        self,
        card_id: u64,
        allowed_merchants: Seq<Address>,
        out: RuleSetOutcome,
    ) -> bool {
        &&& out.gift_card@ == self.gift_card@.with_merchants(allowed_merchants)
        &&& out.event.card_id == card_id
        &&& out.event.gift_card == self.gift_card_key
        &&& out.event.allowed_merchants@ == allowed_merchants
    }

    /// Checks that the accounts fit the instruction: the card is the one named.
    pub fn check(&self, card_id: u64) -> (r: Result<(), GiftCardError>)
        ensures
            r.err() == Some(GiftCardError::InvalidCardId) <==> self.gift_card.card_id != card_id,
            r is Ok <==> self.constrained(card_id),
    {
        if !(self.gift_card.card_id == card_id) {
            return Err(GiftCardError::InvalidCardId);
        }
        Ok(())
    }
}

/// Replaces the card's list of merchants by `allowed_merchants`, whatever the time and the
/// balance.
///
/// The checks are made in this order, and the first that fails names the error: the signer
/// is the card's owner, and the list holds at most ten merchants.
pub fn handler_rule_set(
    ctx: &RuleSet,
    card_id: u64,
    allowed_merchants: Vec<Address>,
) -> (r: Result<RuleSetOutcome, GiftCardError>)
    ensures
        r.err() == Some(GiftCardError::Unauthorized) <==> ctx.owner != ctx.gift_card.owner,
        r.err() == Some(GiftCardError::TooManyMerchants) <==> (ctx.owner == ctx.gift_card.owner
            && allowed_merchants.len() > MAX_ALLOWED_MERCHANTS),
        r is Ok <==> (ctx.owner == ctx.gift_card.owner
            && allowed_merchants.len() <= MAX_ALLOWED_MERCHANTS),
        r matches Ok(out) ==> ctx.updated(card_id, allowed_merchants@, out),
        r matches Ok(out) ==> (ctx.gift_card.wf() ==> out.gift_card.wf()),
{
    if !(ctx.owner == ctx.gift_card.owner) {
        return Err(GiftCardError::Unauthorized);
    }
    if !(allowed_merchants.len() <= MAX_ALLOWED_MERCHANTS) {
        return Err(GiftCardError::TooManyMerchants);
    }
    let gift_card = ctx.gift_card.with_merchants(copy_of(&allowed_merchants));
    let event = RuleSetUpdated { card_id, gift_card: ctx.gift_card_key, allowed_merchants };
    Ok(RuleSetOutcome { gift_card, event })
}

} // verus!
