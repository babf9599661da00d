//! A custodial vault: registered assets are deposited into program-owned
//! custody accounts, each deposit gets a fresh identifier, and the
//! administrator releases escrowed funds to destination accounts.
pub mod custody;
pub mod error;
pub mod key;
pub mod normalize;
pub mod state;
pub mod vault;

pub use error::HakoError;
pub use key::Pubkey;
pub use normalize::{normalize_amount, NORMALIZED_DECIMALS};
pub use state::{
    AllowedToken, AllowedTokenAdded, BridgedOut, DepositInitiated, MintAccount, OwnerUpdated,
    TokenAccount, TokenTransfer, VaultConfig,
};
pub use vault::{
    add_allowed_token, bridge_from_custody, bridge_to_near_intent, deposit, deposit_to_custody,
    initialize, set_owner, AddAllowedToken, BridgeToNearIntent, Deposit, Initialize, SetOwner,
};
