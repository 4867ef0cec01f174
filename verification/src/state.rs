use vstd::prelude::*;

use crate::allowances::approvals_of;
use crate::allowances::Allowances;
use crate::balances::Balances;
use crate::ledger::Ledger;
use crate::principal::Principal;
use crate::tokens::Tokens128;
use crate::types::Metadata;
use crate::types::StatsData;

verus! {

/// The complete token state: balances, metadata, allowances and history.
#[derive(Debug)]
pub struct CanisterState {
    pub balances: Balances,
    pub stats: StatsData,
    pub allowances: Allowances,
    pub ledger: Ledger,
}

impl CanisterState {
    /// The state invariant every operation preserves: well-formed books and
    /// ledger, and conservation — the sum of all balances equals the
    /// recorded total supply.
    pub open spec fn wf(self) -> bool {
        &&& self.balances.wf()
        &&& self.allowances.wf()
        &&& self.ledger.wf()
        &&& self.balances.total() == self.stats.total_supply.amount
    }

    pub fn get_metadata(&self) -> (r: Metadata)
        ensures
            r.logo == self.stats.logo,
            r.name == self.stats.name,
            r.symbol == self.stats.symbol,
            r.decimals == self.stats.decimals,
            r.total_supply == self.stats.total_supply,
            r.owner == self.stats.owner,
            r.fee == self.stats.fee,
            r.fee_to == self.stats.fee_to,
            r.is_test_token == Some(self.stats.is_test_token),
    {
        Metadata {
            logo: self.stats.logo.clone(),
            name: self.stats.name.clone(),
            symbol: self.stats.symbol.clone(),
            decimals: self.stats.decimals,
            total_supply: self.stats.total_supply,
            owner: self.stats.owner,
            fee: self.stats.fee,
            fee_to: self.stats.fee_to,
            is_test_token: Some(self.stats.is_test_token),
        }
    }

    pub fn allowance(&self, owner: Principal, spender: Principal) -> (r: Tokens128)
        requires
            self.wf(),
        ensures
            r.amount == self.allowances.allowance(owner, spender),
    {
        self.allowances.allowance_of(owner, spender)
    }

    /// The number of stored owner–spender allowance entries.
    pub fn allowance_size(&self) -> (r: usize)
        ensures
            r == self.allowances.entries@.len(),
    {
        self.allowances.entry_count()
    }

    /// All approvals granted by `who`, as spender–amount pairs.
    pub fn user_approvals(&self, who: Principal) -> (r: Vec<(Principal, Tokens128)>)
        ensures
            r@ == approvals_of(self.allowances.entries@, who),
    {
        self.allowances.user_approvals(who)
    }
}

impl Default for CanisterState {
    fn default() -> (r: CanisterState)
        ensures
            r.wf(),
            r.balances.entries@.len() == 0,
            r.allowances.entries@.len() == 0,
            r.ledger.next_id_spec() == 0,
            r.stats.total_supply.amount == 0,
    {
        CanisterState {
            balances: Balances::new(),
            stats: StatsData::default(),
            allowances: Allowances::new(),
            ledger: Ledger::new(),
        }
    }
}

} // verus!
