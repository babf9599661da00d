use vstd::prelude::*;

use crate::key::{null_key, Pubkey};
use crate::normalize::NORMALIZED_DECIMALS;

verus! {

/// The vault's singleton configuration: the administrator and the counter of
/// deposits made so far.
#[derive(Clone, Copy, Debug)]
pub struct VaultConfig {
    pub owner: Pubkey,
    pub next_deposit_id: u64,
}

impl VaultConfig {
    /// An initialized configuration never names the null identity as owner.
    pub open spec fn wf(&self) -> bool {
        self.owner@ != null_key()
    }
}

/// The record of one registered asset.
#[derive(Clone, Copy, Debug)]
pub struct AllowedToken {
    pub mint: Pubkey,
    pub decimals: u8,
}

impl AllowedToken {
    pub open spec fn wf(&self) -> bool {
        self.decimals <= NORMALIZED_DECIMALS
    }
}

/// What the vault reads of an asset's mint account.
#[derive(Clone, Copy, Debug)]
pub struct MintAccount {
    pub address: Pubkey,
    pub decimals: u8,
}

/// What the vault reads of a token account: where it lives, which asset it
/// holds, which authority controls it, and its balance.
#[derive(Clone, Copy, Debug)]
pub struct TokenAccount {
    pub address: Pubkey,
    pub mint: Pubkey,
    pub owner: Pubkey,
    pub amount: u64,
}

/// A transfer of `amount` native units between two token accounts, to be
/// carried out by the token program. With `signer_bump` set, the vault
/// configuration's derived address signs, from its fixed seed and that bump;
/// otherwise `authority` signs itself.
#[derive(Clone, Copy, Debug, PartialEq, Eq)]
pub struct TokenTransfer {
    pub from: Pubkey,
    pub to: Pubkey,
    pub authority: Pubkey,
    pub amount: u64,
    pub signer_bump: Option<u8>,
}

#[derive(Clone, Copy, Debug, PartialEq, Eq)]
pub struct AllowedTokenAdded {
    pub mint: Pubkey,
    pub decimals: u8,
}

#[derive(Clone, Copy, Debug, PartialEq, Eq)]
pub struct OwnerUpdated {
    pub old_owner: Pubkey,
    pub new_owner: Pubkey,
}

#[derive(Clone, Copy, Debug, PartialEq, Eq)]
pub struct DepositInitiated {
    pub deposit_id: u64,
    pub user: Pubkey,
    pub mint: Pubkey,
    pub amount: u64,
    pub amount_normalized: u128,
    pub receiver: Pubkey,
}

#[derive(Clone, Copy, Debug, PartialEq, Eq)]
pub struct BridgedOut {
    pub mint: Pubkey,
    pub destination_wallet: Pubkey,
    pub destination_token_account: Pubkey,
    pub amount: u64,
}

} // verus!
