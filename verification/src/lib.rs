//! Gift cards on a token ledger.
//!
//! A giver locks tokens in an escrow that belongs to a card. From the card's unlock date
//! until its refund date the tokens can be redeemed to merchants, to any merchant or only
//! to those on the card's list. From the refund date on the owner can take back what is
//! left, and a card that holds nothing can be deleted.
//!
//! The crate decides; it does not act. Every instruction is a function from the accounts,
//! the arguments and the time to either a refusal or an outcome: the order for the token
//! ledger, the card as it stands once that order is carried out, and the event to announce.
//! Reading the clock, moving the tokens, storing the card and announcing the event are the
//! caller's part.
//!
//! - [`state`]: the card and what must hold of it
//! - [`instructions`]: the accounts, checks and handler of each instruction
//! - [`program`]: the instructions as they are called
//! - [`transfer`]: orders to the ledger and the escrow's authority
//! - [`ledger`]: a model of what the ledger holds
//! - [`theorems`]: what holds of a card through its life
//! - [`events`], [`errors`], [`address`]

pub mod address;
pub mod errors;
pub mod events;
pub mod instructions;
pub mod ledger;
pub mod program;
pub mod state;
pub mod theorems;
pub mod transfer;

pub use address::Address;
pub use errors::GiftCardError;
pub use events::{
    BalanceRefunded, GiftCardCreated, GiftCardDeleted, GiftCardRedeemed, RuleSetUpdated,
};
pub use instructions::create_gift_card::{handler_create_gift_card, CreateGiftCard, CreateOutcome};
pub use instructions::delete_gift_card::{handler_delete_gift_card, DeleteGiftCard};
pub use instructions::redeem::{handler_redeem, Redeem, RedeemOutcome};
pub use instructions::refund::{handler_refund, Refund, RefundOutcome};
pub use instructions::rule_set::{handler_rule_set, RuleSet, RuleSetOutcome};
pub use program::{create_gift_card, delete_gift_card, redeem, refund, rule_set};
pub use state::{GiftCard, MAX_ALLOWED_MERCHANTS};
pub use transfer::{EscrowAuthority, TransferChecked};
