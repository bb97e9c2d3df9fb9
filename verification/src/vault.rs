use vstd::prelude::*;

verus! {

/// Units minted by `RewardVault::create_with_fresh_supply`.
pub const INITIAL_SUPPLY: u128 = 1_000_000;

/// The kind identifier carried by a freshly minted reward supply.
pub open spec fn fresh_kind() -> Seq<char> {
    "HYDRA"@
}

/// A quantity of one fungible resource kind, transferable as a unit of value.
#[derive(Debug, PartialEq, Eq)]
pub struct Asset {
    /// Identifier of the resource kind.
    pub kind: String,
    /// Held quantity of that kind.
    pub quantity: u128,
}

/// Fixed metadata of the freshly minted reward asset; immutable once set.
#[derive(Debug, PartialEq, Eq)]
pub struct AssetMetadata {
    pub name: String,
    pub symbol: String,
    pub description: String,
}

/// The two ways a vault operation can fail.
#[derive(Debug, Clone, Copy, PartialEq, Eq, Structural)]
pub enum VaultError {
    /// Raised only by `create`: the supplied funds are not of the expected kind.
    InvalidAssetKind,
    /// Raised only by `claim_reward`: the requested amount exceeds the balance.
    InsufficientBalance,
}

/// A vault that custodies a single asset kind. The kind is fixed at
/// construction; the balance changes only by the deposit at construction and
/// by withdrawals that decrease it.
#[derive(Debug)]
pub struct RewardVault {
    designated_asset_id: String,
    balance: u128,
}

impl RewardVault {
    /// The asset kind this vault is permitted to hold.
    pub closed spec fn id(&self) -> Seq<char> {
        self.designated_asset_id@
    }

    /// The quantity of the designated asset currently held.
    pub closed spec fn funds(&self) -> u128 {
        self.balance
    }

    /// The kind identifier this vault was constructed with.
    pub fn designated_asset_id(&self) -> (kind: &String)
        ensures
            kind@ == self.id(),
    {
        &self.designated_asset_id
    }

    /// The current balance.
    pub fn balance(&self) -> (quantity: u128)
        ensures
            quantity == self.funds(),
    {
        self.balance
    }

    /// Accept a pre-existing supply. Succeeds exactly when the supplied funds
    /// are of the expected kind; the funds are transferred whole into the new
    /// vault. Otherwise no vault is created and `InvalidAssetKind` comes back.
    pub fn create(initial_funds: Asset, expected_kind: &String) -> (result: Result<
        RewardVault,
        VaultError,
    >)
        ensures
            initial_funds.kind@ == expected_kind@ ==> ({
                &&& result is Ok
                &&& result->Ok_0.id() == initial_funds.kind@
                &&& result->Ok_0.funds() == initial_funds.quantity
            }),
            initial_funds.kind@ != expected_kind@ ==> result == Err::<
                RewardVault,
                VaultError,
            >(VaultError::InvalidAssetKind),
    {
        if initial_funds.kind == *expected_kind {
            Ok(
                RewardVault {
                    designated_asset_id: initial_funds.kind,
                    balance: initial_funds.quantity,
                },
            )
        } else {
            Err(VaultError::InvalidAssetKind)
        }
    }

    /// Mint a brand-new asset kind and fund the vault with the full fixed
    /// initial supply. Never fails.
    pub fn create_with_fresh_supply() -> (vault: RewardVault)
        ensures
            vault.id() == fresh_kind(),
            vault.funds() == INITIAL_SUPPLY,
    {
        RewardVault { designated_asset_id: "HYDRA".to_owned(), balance: INITIAL_SUPPLY }
    }

    /// Detach `amount` of the designated asset from the vault. Succeeds
    /// exactly when the amount is within the balance, which then decreases by
    /// the amount; on failure the vault is unchanged and `InsufficientBalance`
    /// comes back. The designated kind never changes.
    pub fn claim_reward(&mut self, amount: u128) -> (result: Result<Asset, VaultError>)
        ensures
            final(self).id() == old(self).id(),
            amount <= old(self).funds() ==> ({
                &&& result is Ok
                &&& result->Ok_0.kind@ == old(self).id()
                &&& result->Ok_0.quantity == amount
                &&& final(self).funds() == old(self).funds() - amount
            }),
            amount > old(self).funds() ==> ({
                &&& result == Err::<Asset, VaultError>(VaultError::InsufficientBalance)
                &&& *final(self) == *old(self)
            }),
    {
        if amount <= self.balance {
            self.balance = self.balance - amount;
            Ok(Asset { kind: self.designated_asset_id.clone(), quantity: amount })
        } else {
            Err(VaultError::InsufficientBalance)
        }
    }
}

/// The fixed metadata a fresh supply is minted with.
pub fn fresh_supply_metadata() -> (metadata: AssetMetadata)
    ensures
        metadata.symbol@ == fresh_kind(),
        metadata.name@ == "Hydra Reward Token"@,
        metadata.description@ == "Official reward token for the Battle Arena"@,
{
    AssetMetadata {
        name: "Hydra Reward Token".to_owned(),
        symbol: "HYDRA".to_owned(),
        description: "Official reward token for the Battle Arena".to_owned(),
    }
}

/// Total of a run of claim amounts.
pub open spec fn sum_of(amounts: Seq<u128>) -> int
    decreases amounts.len(),
{
    if amounts.len() == 0 {
        0
    } else {
        amounts.first() + sum_of(amounts.drop_first())
    }
}

/// Balance left after a run of claims, each subtracting its amount in turn.
pub open spec fn balance_after(balance: int, amounts: Seq<u128>) -> int
    decreases amounts.len(),
{
    if amounts.len() == 0 {
        balance
    } else {
        balance_after(balance - amounts.first(), amounts.drop_first())
    }
}

/// Whether every claim of a run finds its amount within the balance left to it.
pub open spec fn claims_all_succeed(balance: int, amounts: Seq<u128>) -> bool
    decreases amounts.len(),
{
    amounts.len() == 0 || (amounts.first() <= balance && claims_all_succeed(
        balance - amounts.first(),
        amounts.drop_first(),
    ))
}

/// A run's total is never negative: every amount is non-negative.
pub proof fn lemma_sum_of_nonneg(amounts: Seq<u128>)
    ensures
        sum_of(amounts) >= 0,
    decreases amounts.len(),
{
    if amounts.len() > 0 {
        lemma_sum_of_nonneg(amounts.drop_first());
    }
}

/// Law: in a run of claims whose total stays within the starting balance,
/// every claim succeeds, and the balance left at the end is the starting
/// balance minus the total.
pub proof fn lemma_claim_run(balance: int, amounts: Seq<u128>)
    requires
        sum_of(amounts) <= balance,
    ensures
        claims_all_succeed(balance, amounts),
        balance_after(balance, amounts) == balance - sum_of(amounts),
    decreases amounts.len(),
{
    if amounts.len() > 0 {
        lemma_sum_of_nonneg(amounts.drop_first());
        lemma_claim_run(balance - amounts.first(), amounts.drop_first());
    }
}

} // verus!
