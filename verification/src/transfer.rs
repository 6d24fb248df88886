//! Orders to the token ledger, and the authority under which a card's escrow pays out.

use vstd::prelude::*;
use crate::address::Address;
use crate::state::GiftCard;

verus! {

/// An order to the token ledger: move `amount` units of `mint` from one token account to
/// another, on the word of `authority`. The ledger carries an order out whole or not at all.
#[derive(Clone, Copy, Debug, PartialEq, Eq)]
pub struct TransferChecked {
    pub from: Address,
    pub mint: Address,
    pub to: Address,
    pub authority: Address,
    pub amount: u64,
    pub decimals: u8,
}

/// The seeds of the address of `owner`'s card `card_id`: the prefix, the owner's address,
/// the identifier in little-endian order, and the bump.
pub open spec fn card_seeds(owner: Address, card_id: u64, bump: u8) -> Seq<Seq<u8>> {
    seq![
        GiftCard::SEED_PREFIX@,
        owner.bytes@,
        vstd::bytes::spec_u64_to_le_bytes(card_id),
        seq![bump],
    ]
}

/// The right to pay out of one card's escrow. Only an instruction on that card makes one,
/// and only for the transfer that it orders.
#[derive(Debug, PartialEq, Eq)]
pub struct EscrowAuthority {
    owner: Address,
    card_id: u64,
    bump: u8,
}

impl View for EscrowAuthority {
    type V = Seq<Seq<u8>>;

    /// The seeds that the authority signs with.
    closed spec fn view(&self) -> Seq<Seq<u8>> {
        card_seeds(self.owner, self.card_id, self.bump)
    }
}

impl EscrowAuthority {
    pub(crate) fn new(owner: Address, card_id: u64, bump: u8) -> (authority: EscrowAuthority)
        ensures
            authority@ == card_seeds(owner, card_id, bump),
    {
        EscrowAuthority { owner, card_id, bump }
    }

    /// The seeds to sign the transfer with.
    pub fn seeds(&self) -> (seeds: Vec<Vec<u8>>)
        ensures
            seeds.deep_view() == self@,
    {
        let mut prefix: Vec<u8> = Vec::new();
        let mut i: usize = 0;
        while i < 9
            invariant
                i <= 9,
                prefix@ == GiftCard::SEED_PREFIX@.take(i as int),
            decreases 9 - i,
        {
            prefix.push(GiftCard::SEED_PREFIX[i]);
            i += 1;
        }
        let mut owner: Vec<u8> = Vec::new();
        let mut j: usize = 0;
        while j < 32
            invariant
                j <= 32,
                owner@ == self.owner.bytes@.take(j as int),
            decreases 32 - j,
        {
            owner.push(self.owner.bytes[j]);
            j += 1;
        }
        let card_id = vstd::bytes::u64_to_le_bytes(self.card_id);
        let mut bump: Vec<u8> = Vec::new();
        bump.push(self.bump);
        let mut seeds: Vec<Vec<u8>> = Vec::new();
        seeds.push(prefix);
        seeds.push(owner);
        seeds.push(card_id);
        seeds.push(bump);
        assert(seeds.deep_view() =~~= self@);
        seeds
    }
}

} // verus!
