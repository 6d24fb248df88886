//! A model of the token ledger: what each token account holds, and what an order that the
//! ledger carries out does to it. The ledger itself is not part of this crate; the model
//! serves to say what the instructions mean for the tokens in a card's escrow.

use vstd::prelude::*;
use crate::address::Address;
use crate::transfer::TransferChecked;

verus! {

/// What each token account holds. An account that the map lacks holds nothing.
pub type Holdings = Map<Address, nat>;

/// What `account` holds.
pub open spec fn held(holdings: Holdings, account: Address) -> nat {
    if holdings.dom().contains(account) {
        holdings[account]
    } else {
        0
    }
}

/// What the accounts hold once `amount` has moved from `from` to `to`. A move from an
/// account to itself changes nothing.
pub open spec fn moved(holdings: Holdings, from: Address, to: Address, amount: nat) -> Holdings {
    if from == to {
        holdings
    } else {
        holdings.insert(from, (held(holdings, from) - amount) as nat).insert(
            to,
            held(holdings, to) + amount,
        )
    }
}

impl TransferChecked {
    /// The source holds what the order moves. A ledger refuses an order that is not
    /// covered.
    pub open spec fn covered_by(self, holdings: Holdings) -> bool {
        self.amount <= held(holdings, self.from)
    }

    /// What the accounts hold once the ledger has carried the order out.
    pub open spec fn carried_out(self, holdings: Holdings) -> Holdings {
        moved(holdings, self.from, self.to, self.amount as nat)
    }
}

} // verus!
