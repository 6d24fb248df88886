//! The program's five instructions, as they are called: first the accounts are checked
//! against the instruction, then the handler runs.

use vstd::prelude::*;
use crate::address::Address;
use crate::errors::GiftCardError;
use crate::events::GiftCardDeleted;
use crate::instructions::create_gift_card::{
    handler_create_gift_card,
    CreateGiftCard,
    CreateOutcome,
};
use crate::instructions::delete_gift_card::{handler_delete_gift_card, DeleteGiftCard};
use crate::instructions::redeem::{handler_redeem, Redeem, RedeemOutcome};
use crate::instructions::refund::{handler_refund, Refund, RefundOutcome};
use crate::instructions::rule_set::{handler_rule_set, RuleSet, RuleSetOutcome};
use crate::state::MAX_ALLOWED_MERCHANTS;

verus! {

/// Creates a new gift card with the given amount and dates.
///
/// The accounts of a creation are new, so there is nothing to check them against. The
/// first check that fails names the error: at `now` the unlock date has not passed, and
/// the refund date lies after the unlock date.
pub fn create_gift_card(
    ctx: &CreateGiftCard,
    card_id: u64,
    amount: u64,
    unlock_date: i64,
    refund_date: i64,
    now: i64,
) -> (r: Result<CreateOutcome, GiftCardError>)
    ensures
        r.err() == Some(GiftCardError::InvalidUnlockDate) <==> unlock_date < now,
        r.err() == Some(GiftCardError::InvalidRefundDate) <==> (now <= unlock_date
            && refund_date <= unlock_date),
        r is Ok <==> now <= unlock_date < refund_date,
        r matches Ok(out) ==> ctx.created(card_id, amount, unlock_date, refund_date, out),
        r matches Ok(out) ==> out.gift_card.wf(),
{
    handler_create_gift_card(ctx, card_id, amount, unlock_date, refund_date, now)
}

/// Sets the merchants that may redeem a gift card.
///
/// The first check that fails names the error: the card is the one named, the signer is
/// its owner, and the list holds at most ten merchants.
pub fn rule_set(
    ctx: &RuleSet,
    card_id: u64,
    allowed_merchants: Vec<Address>,
) -> (r: Result<RuleSetOutcome, GiftCardError>)
    ensures
        r.err() == Some(GiftCardError::InvalidCardId) <==> ctx.gift_card.card_id != card_id,
        r.err() == Some(GiftCardError::Unauthorized) <==> (ctx.constrained(card_id)
            && ctx.owner != ctx.gift_card.owner),
        r.err() == Some(GiftCardError::TooManyMerchants) <==> (ctx.constrained(card_id)
            && ctx.owner == ctx.gift_card.owner
            && allowed_merchants.len() > MAX_ALLOWED_MERCHANTS),
        r is Ok <==> (ctx.constrained(card_id) && ctx.owner == ctx.gift_card.owner
            && allowed_merchants.len() <= MAX_ALLOWED_MERCHANTS),
        r matches Ok(out) ==> ctx.updated(card_id, allowed_merchants@, out),
        r matches Ok(out) ==> (ctx.gift_card.wf() ==> out.gift_card.wf()),
{
    match ctx.check(card_id) {
        Err(e) => Err(e),
        Ok(()) => handler_rule_set(ctx, card_id, allowed_merchants),
    }
}

/// Redeems tokens from a gift card to a merchant.
///
/// The first check that fails names the error: the card is the one named, the token
/// account to pay from is the card's escrow, the signer is the card's owner, the card is
/// unlocked, it has not expired, it holds `amount`, and it admits the merchant. So only
/// the owner's signature authorizes a redemption, and a valid card is never redeemed from
/// its refund date on.
pub fn redeem(
    ctx: &Redeem,
    card_id: u64,
    amount: u64,
    now: i64,
) -> (r: Result<RedeemOutcome, GiftCardError>)
    ensures
        r.err() == Some(GiftCardError::InvalidCardId) <==> ctx.gift_card.card_id != card_id,
        r.err() == Some(GiftCardError::Unauthorized) <==> (ctx.gift_card.card_id == card_id
            && (ctx.escrow_token_account != ctx.gift_card.escrow_token_account
            || ctx.owner != ctx.gift_card.owner)),
        r.err() == Some(GiftCardError::GiftCardLocked) <==> (ctx.constrained(card_id)
            && now < ctx.gift_card.unlock_date),
        r.err() == Some(GiftCardError::GiftCardExpired) <==> (ctx.constrained(card_id)
            && ctx.gift_card.unlock_date <= now && ctx.gift_card.refund_date <= now),
        r.err() == Some(GiftCardError::InsufficientBalance) <==> (ctx.constrained(card_id)
            && ctx.gift_card.unlock_date <= now && now < ctx.gift_card.refund_date
            && ctx.gift_card.balance < amount),
        r.err() == Some(GiftCardError::MerchantNotAllowed) <==> (ctx.constrained(card_id)
            && ctx.gift_card.unlock_date <= now && now < ctx.gift_card.refund_date
            && amount <= ctx.gift_card.balance && !ctx.gift_card@.admits(ctx.merchant)),
        r is Ok <==> (ctx.constrained(card_id)
            && ctx.gift_card@.redeemable(ctx.merchant, amount as nat, now as int)),
        r matches Ok(out) ==> ctx.redeemed(card_id, amount, out),
        r matches Ok(out) ==> (ctx.gift_card.wf() ==> out.gift_card.wf()),
        ctx.gift_card.wf() && ctx.constrained(card_id) && ctx.gift_card.refund_date <= now
            ==> r.err() == Some(GiftCardError::GiftCardExpired),
        ctx.owner != ctx.gift_card.owner ==> r is Err,
{
    match ctx.check(card_id) {
        Err(e) => Err(e),
        Ok(()) => handler_redeem(ctx, card_id, amount, now),
    }
}

/// Refunds what is left on a gift card to its giver, from the refund date on.
///
/// The first check that fails names the error: the card is the one named, the token
/// account to pay from is the card's escrow, the signer is the card's owner, the refund
/// date has come, and the card holds something.
pub fn refund(ctx: &Refund, card_id: u64, now: i64) -> (r: Result<RefundOutcome, GiftCardError>)
    ensures
        r.err() == Some(GiftCardError::InvalidCardId) <==> ctx.gift_card.card_id != card_id,
        r.err() == Some(GiftCardError::Unauthorized) <==> (ctx.gift_card.card_id == card_id
            && (ctx.escrow_token_account != ctx.gift_card.escrow_token_account
            || ctx.owner != ctx.gift_card.owner)),
        r.err() == Some(GiftCardError::RefundNotAvailable) <==> (ctx.constrained(card_id)
            && ctx.owner == ctx.gift_card.owner && now < ctx.gift_card.refund_date),
        r.err() == Some(GiftCardError::NoBalanceToRefund) <==> (ctx.constrained(card_id)
            && ctx.owner == ctx.gift_card.owner && ctx.gift_card.refund_date <= now
            && ctx.gift_card.balance == 0),
        r is Ok <==> (ctx.constrained(card_id)
            && ctx.gift_card@.refundable(ctx.owner, now as int)),
        r matches Ok(out) ==> ctx.refunded(card_id, out),
        r matches Ok(out) ==> (ctx.gift_card.wf() ==> out.gift_card.wf()),
{
    match ctx.check(card_id) {
        Err(e) => Err(e),
        Ok(()) => handler_refund(ctx, card_id, now),
    }
}

/// Deletes an empty gift card. The caller then frees the card's storage and hands its
/// deposit to the signer.
///
/// The first check that fails names the error: the card is the one named, it is the
/// signer's, and it holds nothing. So a card that holds anything is never deleted. The
/// handler makes these checks itself.
pub fn delete_gift_card(
    ctx: &DeleteGiftCard,
    card_id: u64,
) -> (r: Result<GiftCardDeleted, GiftCardError>)
    ensures
        r.err() == Some(GiftCardError::InvalidCardId) <==> ctx.gift_card.card_id != card_id,
        r.err() == Some(GiftCardError::Unauthorized) <==> (ctx.gift_card.card_id == card_id
            && ctx.gift_card.owner != ctx.owner),
        r.err() == Some(GiftCardError::HasBalance) <==> (ctx.gift_card.card_id == card_id
            && ctx.gift_card.owner == ctx.owner && ctx.gift_card.balance > 0),
        r.ok() == Some(GiftCardDeleted { card_id }) <==> ctx.constrained(card_id),
        r is Ok <==> ctx.constrained(card_id),
        ctx.gift_card.balance > 0 ==> r is Err,
{
    handler_delete_gift_card(ctx, card_id)
}

} // verus!
