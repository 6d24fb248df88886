//! The gift card record and what must hold of it.

use vstd::prelude::*;
use crate::address::Address;

verus! {

/// The most merchants that a card's list can hold.
pub const MAX_ALLOWED_MERCHANTS: usize = 10;

/// A gift card: tokens held in escrow for merchants to redeem between two dates,
/// and for the owner to take back afterwards.
#[derive(Debug, PartialEq, Eq)]
pub struct GiftCard {
    /// Identifier of the card, unique among its owner's cards.
    pub card_id: u64,
    /// Who created the card. Only the owner changes the merchant list or asks for a refund.
    pub owner: Address,
    /// Tokens that the card holds in escrow, in the mint's smallest unit.
    pub balance: u64,
    /// Unix time from which the card is redeemable.
    pub unlock_date: i64,
    /// Unix time from which the card is refundable, and no longer redeemable.
    pub refund_date: i64,
    /// The mint of the tokens held.
    pub token_mint: Address,
    /// The token account that holds them, under the card's sole authority.
    pub escrow_token_account: Address,
    /// Bump seed of the card's own address.
    pub bump: u8,
    /// Decimals of the mint, as transfers have to state them.
    pub decimals: u8,
    /// The merchants that may redeem. An empty list admits every merchant.
    pub allowed_merchants: Vec<Address>,
}

/// A gift card as a mathematical value.
pub struct GiftCardView {
    pub card_id: u64,
    pub owner: Address,
    pub balance: nat,
    pub unlock_date: int,
    pub refund_date: int,
    pub token_mint: Address,
    pub escrow_token_account: Address,
    pub bump: u8,
    pub decimals: u8,
    pub allowed_merchants: Seq<Address>,
}

impl View for GiftCard {
    type V = GiftCardView;

    open spec fn view(&self) -> GiftCardView {
        GiftCardView {
            card_id: self.card_id,
            owner: self.owner,
            balance: self.balance as nat,
            unlock_date: self.unlock_date as int,
            refund_date: self.refund_date as int,
            token_mint: self.token_mint,
            escrow_token_account: self.escrow_token_account,
            bump: self.bump,
            decimals: self.decimals,
            allowed_merchants: self.allowed_merchants@,
        }
    }
}

impl Clone for GiftCard {
    fn clone(&self) -> (card: GiftCard)
        ensures
            card@ == self@,
    {
        self.with_balance(self.balance)
    }
}

impl GiftCardView {
    /// What every operation keeps: the card unlocks before it becomes refundable,
    /// and its merchant list fits.
    pub open spec fn wf(self) -> bool {
        &&& self.unlock_date < self.refund_date
        &&& self.allowed_merchants.len() <= MAX_ALLOWED_MERCHANTS
    }

    /// At `now` the card is not yet redeemable.
    pub open spec fn locked_at(self, now: int) -> bool {
        now < self.unlock_date
    }

    /// At `now` the card is no longer redeemable, and is refundable.
    pub open spec fn expired_at(self, now: int) -> bool {
        self.refund_date <= now
    }

    /// The card lets `merchant` redeem: its list is empty, or names the merchant.
    pub open spec fn admits(self, merchant: Address) -> bool {
        self.allowed_merchants.len() == 0 || self.allowed_merchants.contains(merchant)
    }

    /// A redemption of `amount` by `merchant` at `now` goes through.
    pub open spec fn redeemable(self, merchant: Address, amount: nat, now: int) -> bool {
        &&& !self.locked_at(now)
        &&& !self.expired_at(now)
        &&& amount <= self.balance
        &&& self.admits(merchant)
    }

    /// A refund asked by `signer` at `now` goes through.
    pub open spec fn refundable(self, signer: Address, now: int) -> bool {
        &&& signer == self.owner
        &&& self.expired_at(now)
        &&& self.balance > 0
    }

    /// The same card holding `balance`.
    pub open spec fn with_balance(self, balance: nat) -> GiftCardView {
        GiftCardView { balance, ..self }
    }

    /// The same card with `merchants` as its list.
    pub open spec fn with_merchants(self, merchants: Seq<Address>) -> GiftCardView {
        GiftCardView { allowed_merchants: merchants, ..self }
    }
}

impl GiftCard {
    /// The first seed of every card's address: the text `gift_card`.
    pub const SEED_PREFIX: [u8; 9] = [103, 105, 102, 116, 95, 99, 97, 114, 100];

    /// The card is valid: see [`GiftCardView::wf`].
    pub open spec fn wf(&self) -> bool {
        self@.wf()
    }

    /// Whether the card lets `merchant` redeem.
    pub fn admits(&self, merchant: &Address) -> (yes: bool)
        ensures
            yes == self@.admits(*merchant),
    {
        self.allowed_merchants.len() == 0 || merchant.is_in(&self.allowed_merchants)
    }

    /// The same card holding `balance`.
    pub fn with_balance(&self, balance: u64) -> (card: GiftCard)
        ensures
            card@ == self@.with_balance(balance as nat),
    {
        GiftCard {
            card_id: self.card_id,
            owner: self.owner,
            balance,
            unlock_date: self.unlock_date,
            refund_date: self.refund_date,
            token_mint: self.token_mint,
            escrow_token_account: self.escrow_token_account,
            bump: self.bump,
            decimals: self.decimals,
            allowed_merchants: copy_of(&self.allowed_merchants),
        }
    }

    /// The same card with `merchants` as its list.
    pub fn with_merchants(&self, merchants: Vec<Address>) -> (card: GiftCard)
        ensures
            card@ == self@.with_merchants(merchants@),
    {
        GiftCard {
            card_id: self.card_id,
            owner: self.owner,
            balance: self.balance,
            unlock_date: self.unlock_date,
            refund_date: self.refund_date,
            token_mint: self.token_mint,
            escrow_token_account: self.escrow_token_account,
            bump: self.bump,
            decimals: self.decimals,
            allowed_merchants: merchants,
        }
    }
}

/// A list with the same addresses in the same order.
pub fn copy_of(list: &Vec<Address>) -> (copy: Vec<Address>)
    ensures
        copy@ == list@,
{
    let mut copy: Vec<Address> = Vec::new();
    let mut i: usize = 0;
    while i < list.len()
        invariant
            i <= list.len(),
            copy@ == list@.take(i as int),
        decreases list.len() - i,
    {
        copy.push(list[i]);
        i += 1;
    }
    copy
}

} // verus!
