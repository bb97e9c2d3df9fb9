use vstd::prelude::*;

use crate::vault::Asset;
use crate::vault::RewardVault;
use crate::vault::VaultError;
use crate::vault::INITIAL_SUPPLY;
use crate::vault::fresh_kind;

verus! {

/// The component that owns the reward vault and dispenses its tokens. Anyone
/// holding the component may claim, up to the remaining balance: there is no
/// authorization check, by design.
pub struct BattleArena {
    reward_vault: RewardVault,
}

impl BattleArena {
    /// The kind the arena's vault is permitted to hold.
    pub closed spec fn reward_kind(&self) -> Seq<char> {
        self.reward_vault.id()
    }

    /// The quantity the arena's vault currently holds.
    pub closed spec fn reward_balance(&self) -> u128 {
        self.reward_vault.funds()
    }

    /// The current balance of the arena's vault.
    pub fn balance(&self) -> (quantity: u128)
        ensures
            quantity == self.reward_balance(),
    {
        self.reward_vault.balance()
    }

    /// Instantiate a new arena whose vault holds a freshly minted supply of
    /// the reward token.
    pub fn instantiate_battle_arena() -> (arena: BattleArena)
        ensures
            arena.reward_kind() == fresh_kind(),
            arena.reward_balance() == INITIAL_SUPPLY,
    {
        BattleArena { reward_vault: RewardVault::create_with_fresh_supply() }
    }

    /// Claim a reward from the arena's vault: succeeds exactly when the amount
    /// is within the balance, which then decreases by the amount; on failure
    /// the arena is unchanged.
    pub fn claim_reward(&mut self, amount: u128) -> (result: Result<Asset, VaultError>)
        ensures
            final(self).reward_kind() == old(self).reward_kind(),
            amount <= old(self).reward_balance() ==> ({
                &&& result is Ok
                &&& result->Ok_0.kind@ == old(self).reward_kind()
                &&& result->Ok_0.quantity == amount
                &&& final(self).reward_balance() == old(self).reward_balance() - amount
            }),
            amount > old(self).reward_balance() ==> ({
                &&& result == Err::<Asset, VaultError>(VaultError::InsufficientBalance)
                &&& *final(self) == *old(self)
            }),
    {
        self.reward_vault.claim_reward(amount)
    }
}

} // verus!
