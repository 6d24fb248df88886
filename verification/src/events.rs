//! What each instruction that went through announces to observers.

use vstd::prelude::*;
use crate::address::Address;

verus! {

/// A card was created and funded.
#[derive(Clone, Copy, Debug, PartialEq, Eq)]
pub struct GiftCardCreated {
    pub card_id: u64,
    pub owner: Address,
    pub balance: u64,
    pub unlock_date: i64,
    pub refund_date: i64,
}

/// A merchant redeemed part of a card.
#[derive(Clone, Copy, Debug, PartialEq, Eq)]
pub struct GiftCardRedeemed {
    pub card_id: u64,
    pub gift_card: Address,
    pub merchant: Address,
    pub amount: u64,
    pub remaining_balance: u64,
}

/// A card got a new list of merchants.
#[derive(Debug, PartialEq, Eq)]
pub struct RuleSetUpdated {
    pub card_id: u64,
    pub gift_card: Address,
    pub allowed_merchants: Vec<Address>,
}

/// What was left on a card went back to its owner.
#[derive(Clone, Copy, Debug, PartialEq, Eq)]
pub struct BalanceRefunded {
    pub card_id: u64,
    pub gift_card: Address,
    pub amount: u64,
    pub remaining_balance: u64,
}

/// An empty card was deleted.
#[derive(Clone, Copy, Debug, PartialEq, Eq)]
pub struct GiftCardDeleted {
    pub card_id: u64,
}

} // verus!
