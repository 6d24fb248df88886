//! The five instructions on a gift card.
//!
//! A handler decides and computes; it neither reads the clock nor talks to the token ledger.
//! It takes the time as an argument, and where tokens have to move it hands back the order
//! for the ledger together with the card as it stands once the ledger has carried that
//! order out. The caller commits the card and announces the event only then; if the handler
//! or the ledger refuses, the card stays as it was.

pub mod create_gift_card;
pub mod delete_gift_card;
pub mod redeem;
pub mod refund;
pub mod rule_set;
