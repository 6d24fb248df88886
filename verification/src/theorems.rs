//! What holds of a card through its life: the escrow holds what the card records,
//! redemptions add up, and a card's terms are fixed.

use vstd::prelude::*;
use crate::address::Address;
use crate::instructions::create_gift_card::{CreateGiftCard, CreateOutcome};
use crate::instructions::redeem::{Redeem, RedeemOutcome};
use crate::instructions::refund::{Refund, RefundOutcome};
use crate::instructions::rule_set::{RuleSet, RuleSetOutcome};
use crate::ledger::{held, moved, Holdings};
use crate::state::GiftCardView;

verus! {

/// The card's escrow holds exactly what the card records.
pub open spec fn in_custody(card: GiftCardView, holdings: Holdings) -> bool {
    held(holdings, card.escrow_token_account) == card.balance
}

/// Two cards have the same terms: identifier, owner, dates, mint, escrow, bump and
/// decimals.
pub open spec fn same_terms(a: GiftCardView, b: GiftCardView) -> bool {
    &&& a.card_id == b.card_id
    &&& a.owner == b.owner
    &&& a.unlock_date == b.unlock_date
    &&& a.refund_date == b.refund_date
    &&& a.token_mint == b.token_mint
    &&& a.escrow_token_account == b.escrow_token_account
    &&& a.bump == b.bump
    &&& a.decimals == b.decimals
}

/// One redemption asked of a card.
pub struct Redemption {
    pub merchant: Address,
    pub merchant_token_account: Address,
    pub amount: nat,
    pub now: int,
}

/// The sum of the amounts of `redemptions`.
pub open spec fn total(redemptions: Seq<Redemption>) -> nat
    decreases redemptions.len(),
{
    if redemptions.len() == 0 {
        0
    } else {
        redemptions[0].amount + total(redemptions.drop_first())
    }
}

/// The card after `redemptions` went through one after the other, or `None` if one of
/// them was refused.
pub open spec fn card_after(
    card: GiftCardView,
    redemptions: Seq<Redemption>,
) -> Option<GiftCardView>
    decreases redemptions.len(),
{
    if redemptions.len() == 0 {
        Some(card)
    } else {
        let first = redemptions[0];
        if card.redeemable(first.merchant, first.amount, first.now) {
            card_after(
                card.with_balance((card.balance - first.amount) as nat),
                redemptions.drop_first(),
            )
        } else {
            None
        }
    }
}

/// What the accounts hold after the payments of `redemptions` were made out of `escrow`
/// one after the other.
pub open spec fn holdings_after(
    holdings: Holdings,
    escrow: Address,
    redemptions: Seq<Redemption>,
) -> Holdings
    decreases redemptions.len(),
{
    if redemptions.len() == 0 {
        holdings
    } else {
        let first = redemptions[0];
        holdings_after(
            moved(holdings, escrow, first.merchant_token_account, first.amount),
            escrow,
            redemptions.drop_first(),
        )
    }
}

/// A card that has just been created records the deposit; and once the ledger has carried
/// the deposit out, the card's escrow, empty until then, holds exactly the deposit.
pub proof fn creation_funds_the_escrow(
    ctx: CreateGiftCard,
    card_id: u64,
    amount: u64,
    unlock_date: i64,
    refund_date: i64,
    out: CreateOutcome,
    holdings: Holdings,
)
    requires
        ctx.created(card_id, amount, unlock_date, refund_date, out),
        held(holdings, ctx.escrow_token_account) == 0,
        out.transfer.covered_by(holdings),
    ensures
        out.gift_card@.balance == amount,
        held(out.transfer.carried_out(holdings), ctx.escrow_token_account) == amount,
        in_custody(out.gift_card@, out.transfer.carried_out(holdings)),
{
}

/// A redemption that pays into another account than the escrow is covered by the escrow,
/// leaves in the escrow exactly what the card then records, and adds `amount` to what the
/// merchant's account holds.
pub proof fn redemption_keeps_custody(
    ctx: Redeem,
    card_id: u64,
    amount: u64,
    out: RedeemOutcome,
    holdings: Holdings,
)
    requires
        ctx.constrained(card_id),
        ctx.redeemed(card_id, amount, out),
        in_custody(ctx.gift_card@, holdings),
        ctx.merchant_token_account != ctx.escrow_token_account,
    ensures
        out.transfer.covered_by(holdings),
        in_custody(out.gift_card@, out.transfer.carried_out(holdings)),
        held(out.transfer.carried_out(holdings), ctx.merchant_token_account)
            == held(holdings, ctx.merchant_token_account) + amount,
{
}

/// A refund that pays into another account than the escrow sets the card's balance to
/// nothing, moves all that the card held to the giver's account, and leaves the escrow
/// empty.
pub proof fn refund_empties_the_card(
    ctx: Refund,
    card_id: u64,
    out: RefundOutcome,
    holdings: Holdings,
)
    requires
        ctx.constrained(card_id),
        ctx.refunded(card_id, out),
        in_custody(ctx.gift_card@, holdings),
        ctx.gift_giver_token_account != ctx.escrow_token_account,
    ensures
        out.gift_card@.balance == 0,
        out.transfer.amount == ctx.gift_card.balance,
        out.transfer.covered_by(holdings),
        in_custody(out.gift_card@, out.transfer.carried_out(holdings)),
        held(out.transfer.carried_out(holdings), ctx.gift_giver_token_account)
            == held(holdings, ctx.gift_giver_token_account) + ctx.gift_card.balance,
{
}

/// A redemption that goes through is one step of [`card_after`] and of
/// [`holdings_after`]: the card that it hands back and what the accounts hold once its
/// payment is made are those after the one redemption.
pub proof fn redemption_is_one_step(
    ctx: Redeem,
    card_id: u64,
    amount: u64,
    now: i64,
    out: RedeemOutcome,
    holdings: Holdings,
)
    requires
        ctx.gift_card@.redeemable(ctx.merchant, amount as nat, now as int),
        ctx.redeemed(card_id, amount, out),
    ensures
        ({
            let one = seq![
                Redemption {
                    merchant: ctx.merchant,
                    merchant_token_account: ctx.merchant_token_account,
                    amount: amount as nat,
                    now: now as int,
                },
            ];
            &&& card_after(ctx.gift_card@, one) == Some(out.gift_card@)
            &&& holdings_after(holdings, ctx.escrow_token_account, one)
                == out.transfer.carried_out(holdings)
        }),
{
    let one = seq![
        Redemption {
            merchant: ctx.merchant,
            merchant_token_account: ctx.merchant_token_account,
            amount: amount as nat,
            now: now as int,
        },
    ];
    assert(one.drop_first().len() == 0);
    let next = ctx.gift_card@.with_balance((ctx.gift_card.balance - amount) as nat);
    assert(card_after(next, one.drop_first()) == Some(next));
    let paid = moved(
        holdings,
        ctx.escrow_token_account,
        ctx.merchant_token_account,
        amount as nat,
    );
    assert(holdings_after(paid, ctx.escrow_token_account, one.drop_first()) == paid);
}

/// Where every one of `redemptions` went through, their amounts add up to no more than
/// the card held at first, and the card ends with what it held less their sum, and
/// otherwise as it was.
pub proof fn redemptions_add_up(card: GiftCardView, redemptions: Seq<Redemption>)
    requires
        card_after(card, redemptions) is Some,
    ensures
        total(redemptions) <= card.balance,
        card_after(card, redemptions) == Some(
            card.with_balance((card.balance - total(redemptions)) as nat),
        ),
    decreases redemptions.len(),
{
    if redemptions.len() > 0 {
        let first = redemptions[0];
        let next = card.with_balance((card.balance - first.amount) as nat);
        redemptions_add_up(next, redemptions.drop_first());
    }
}

/// Where every one of `redemptions` went through and paid into another account than the
/// escrow, the escrow holds in the end exactly what the card then records.
pub proof fn redemptions_keep_custody(
    card: GiftCardView,
    holdings: Holdings,
    redemptions: Seq<Redemption>,
)
    requires
        in_custody(card, holdings),
        card_after(card, redemptions) is Some,
        forall|i: int|
            0 <= i < redemptions.len()
                ==> (#[trigger] redemptions[i]).merchant_token_account
                    != card.escrow_token_account,
    ensures
        in_custody(
            card_after(card, redemptions)->0,
            holdings_after(holdings, card.escrow_token_account, redemptions),
        ),
    decreases redemptions.len(),
{
    if redemptions.len() > 0 {
        let first = redemptions[0];
        let rest = redemptions.drop_first();
        let next = card.with_balance((card.balance - first.amount) as nat);
        let paid = moved(
            holdings,
            card.escrow_token_account,
            first.merchant_token_account,
            first.amount,
        );
        assert forall|i: int| 0 <= i < rest.len() implies
            (#[trigger] rest[i]).merchant_token_account != next.escrow_token_account by {
            assert(rest[i] == redemptions[i + 1]);
        }
        redemptions_keep_custody(next, paid, rest);
    }
}

/// A redemption takes `amount` off the card and touches nothing else: the terms and the
/// merchant list stay.
pub proof fn redemption_touches_only_the_balance(
    ctx: Redeem,
    card_id: u64,
    amount: u64,
    out: RedeemOutcome,
)
    requires
        ctx.redeemed(card_id, amount, out),
    ensures
        out.gift_card@.balance + amount == ctx.gift_card@.balance,
        same_terms(ctx.gift_card@, out.gift_card@),
        out.gift_card@.allowed_merchants == ctx.gift_card@.allowed_merchants,
{
}

/// A refund takes everything off the card and touches nothing else: the terms and the
/// merchant list stay.
pub proof fn refund_touches_only_the_balance(ctx: Refund, card_id: u64, out: RefundOutcome)
    requires
        ctx.refunded(card_id, out),
    ensures
        out.gift_card@.balance == 0,
        same_terms(ctx.gift_card@, out.gift_card@),
        out.gift_card@.allowed_merchants == ctx.gift_card@.allowed_merchants,
{
}

/// A change of the merchant list puts the new list in place of the old and touches
/// nothing else: the terms and the balance stay, no tokens move, and the escrow goes on
/// holding exactly what the card records.
pub proof fn list_change_touches_only_the_list(
    ctx: RuleSet,
    card_id: u64,
    allowed_merchants: Seq<Address>,
    out: RuleSetOutcome,
    holdings: Holdings,
)
    requires
        ctx.updated(card_id, allowed_merchants, out),
    ensures
        out.gift_card@.allowed_merchants == allowed_merchants,
        out.gift_card@.balance == ctx.gift_card@.balance,
        same_terms(ctx.gift_card@, out.gift_card@),
        in_custody(ctx.gift_card@, holdings) ==> in_custody(out.gift_card@, holdings),
{
}

/// The life of a valid card has three parts. Before its unlock date nothing leaves it.
/// From then until its refund date redemptions go through and no refund does. From its
/// refund date on no redemption goes through, and the owner gets back whatever is left.
pub proof fn a_life_has_three_parts(
    card: GiftCardView,
    signer: Address,
    merchant: Address,
    amount: nat,
    now: int,
)
    requires
        card.wf(),
    ensures
        now < card.unlock_date ==> (!card.redeemable(merchant, amount, now)
            && !card.refundable(signer, now)),
        card.unlock_date <= now < card.refund_date ==> (!card.refundable(signer, now)
            && (card.redeemable(merchant, amount, now)
                <==> (amount <= card.balance && card.admits(merchant)))),
        card.refund_date <= now ==> (!card.redeemable(merchant, amount, now)
            && (card.refundable(card.owner, now) <==> card.balance > 0)),
{
}

/// A card without a list admits every merchant; a card with a list admits exactly the
/// merchants on it.
pub proof fn who_is_admitted(card: GiftCardView, merchant: Address)
    ensures
        card.allowed_merchants.len() == 0 ==> card.admits(merchant),
        card.allowed_merchants.len() > 0 ==> (card.admits(merchant)
            <==> card.allowed_merchants.contains(merchant)),
{
}

} // verus!
