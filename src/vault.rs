use vstd::prelude::*;

use crate::custody::{associated_address, associated_token_address};
use crate::error::HakoError;
use crate::key::{null_key, Pubkey};
use crate::normalize::{lemma_normalized_fits, normalize_amount, normalized, NORMALIZED_DECIMALS};
use crate::state::{
    AllowedToken, AllowedTokenAdded, BridgedOut, DepositInitiated, MintAccount, OwnerUpdated,
    TokenAccount, TokenTransfer, VaultConfig,
};

verus! {

/// The accounts of a deposit: the vault configuration and its address, the
/// registered asset, the depositing user (who signs), the user's source
/// account and the asset's custody account.
#[derive(Clone, Copy, Debug)]
pub struct Deposit {
    pub config_address: Pubkey,
    pub config: VaultConfig,
    pub allowed_token: AllowedToken,
    pub user: Pubkey,
    pub user_token_account: TokenAccount,
    pub vault_token_account: TokenAccount,
}

/// Whether `custody` is the canonical custody account of `mint` for the vault
/// configuration at `config_address`, given the derived address `expected`.
pub open spec fn is_custody(
    custody: TokenAccount,
    config_address: Seq<u8>,
    expected: Seq<u8>,
) -> bool {
    custody.address@ == expected && custody.owner@ == config_address
}

/// The first check that a deposit fails, given the derived custody address
/// `expected`; `None` when the deposit goes through.
pub open spec fn deposit_failure(
    ctx: Deposit,
    amount: u64,
    receiver: Pubkey,
    expected: Seq<u8>,
) -> Option<HakoError> {
    if amount == 0 {
        Some(HakoError::InvalidAmount)
    } else if receiver@ == null_key() {
        Some(HakoError::InvalidReceiver)
    } else if ctx.user_token_account.mint@ != ctx.allowed_token.mint@
        || ctx.vault_token_account.mint@ != ctx.allowed_token.mint@ {
        Some(HakoError::InvalidMint)
    } else if !is_custody(ctx.vault_token_account, ctx.config_address@, expected) {
        Some(HakoError::InvalidVaultTokenAccount)
    } else if ctx.allowed_token.decimals > NORMALIZED_DECIMALS {
        Some(HakoError::DecimalsTooHigh)
    } else if ctx.config.next_deposit_id == u64::MAX {
        Some(HakoError::MathOverflow)
    } else {
        None
    }
}

/// The transfer that a deposit of `amount` asks of the token program: from the
/// user's account into custody, signed by the user.
pub open spec fn deposit_transfer(ctx: Deposit, amount: u64) -> TokenTransfer {
    TokenTransfer {
        from: ctx.user_token_account.address,
        to: ctx.vault_token_account.address,
        authority: ctx.user,
        amount,
        signer_bump: None,
    }
}

/// The event of a successful deposit, which takes the next identifier.
pub open spec fn deposit_event(ctx: Deposit, amount: u64, receiver: Pubkey) -> DepositInitiated {
    DepositInitiated {
        deposit_id: (ctx.config.next_deposit_id + 1) as u64,
        user: ctx.user,
        mint: ctx.allowed_token.mint,
        amount,
        amount_normalized: normalized(amount as nat, ctx.allowed_token.decimals as nat) as u128,
        receiver,
    }
}

/// The deposit of `amount` into custody, given the derived address
/// `expected_vault` of the custody account. On success the deposit counter
/// moves on by one, and the transfer to make and the event to emit come back;
/// on failure nothing changes.
pub fn deposit_to_custody(
    ctx: &mut Deposit,
    amount: u64,
    receiver: Pubkey,
    expected_vault: Pubkey,
) -> (r: Result<(TokenTransfer, DepositInitiated), HakoError>)
    ensures
        match r {
            Ok((t, ev)) => {
                &&& deposit_failure(*old(ctx), amount, receiver, expected_vault@) is None
                &&& *final(ctx) == (Deposit {
                    config: VaultConfig {
                        next_deposit_id: (old(ctx).config.next_deposit_id + 1) as u64,
                        ..old(ctx).config
                    },
                    ..*old(ctx)
                })
                &&& t == deposit_transfer(*old(ctx), amount)
                &&& ev == deposit_event(*old(ctx), amount, receiver)
            },
            Err(e) => {
                &&& deposit_failure(*old(ctx), amount, receiver, expected_vault@) == Some(e)
                &&& *final(ctx) == *old(ctx)
            },
        },
        r is Ok ==> is_custody(old(ctx).vault_token_account, old(ctx).config_address@, expected_vault@),
        r is Ok ==> final(ctx).config.next_deposit_id == old(ctx).config.next_deposit_id + 1,
{
    if amount == 0 {
        return Err(HakoError::InvalidAmount);
    }
    if receiver.is_default() {
        return Err(HakoError::InvalidReceiver);
    }
    if !ctx.user_token_account.mint.key_eq(&ctx.allowed_token.mint) {
        return Err(HakoError::InvalidMint);
    }
    if !ctx.vault_token_account.mint.key_eq(&ctx.allowed_token.mint) {
        return Err(HakoError::InvalidMint);
    }
    if !ctx.vault_token_account.address.key_eq(&expected_vault) {
        return Err(HakoError::InvalidVaultTokenAccount);
    }
    if !ctx.vault_token_account.owner.key_eq(&ctx.config_address) {
        return Err(HakoError::InvalidVaultTokenAccount);
    }
    let normalized = match normalize_amount(amount, ctx.allowed_token.decimals) {
        Ok(n) => n,
        Err(e) => {
            proof {
                if ctx.allowed_token.decimals <= NORMALIZED_DECIMALS {
                    lemma_normalized_fits(amount, ctx.allowed_token.decimals);
                }
            }
            return Err(e);
        },
    };
    proof {
        lemma_normalized_fits(amount, ctx.allowed_token.decimals);
    }
    let deposit_id = match ctx.config.next_deposit_id.checked_add(1) {
        Some(id) => id,
        None => {
            return Err(HakoError::MathOverflow);
        },
    };
    ctx.config.next_deposit_id = deposit_id;
    let transfer = TokenTransfer {
        from: ctx.user_token_account.address,
        to: ctx.vault_token_account.address,
        authority: ctx.user,
        amount,
        signer_bump: None,
    };
    let event = DepositInitiated {
        deposit_id,
        user: ctx.user,
        mint: ctx.allowed_token.mint,
        amount,
        amount_normalized: normalized,
        receiver,
    };
    Ok((transfer, event))
}

/// Deposits `amount` of the registered asset into its custody account, whose
/// address must be the one derived from the vault configuration's address and
/// the asset.
pub fn deposit(ctx: &mut Deposit, amount: u64, receiver: Pubkey) -> (r: Result<
    (TokenTransfer, DepositInitiated),
    HakoError,
>)
    ensures
        ({
            let expected = associated_token_address(
                old(ctx).config_address@,
                old(ctx).allowed_token.mint@,
            );
            match r {
                Ok((t, ev)) => {
                    &&& deposit_failure(*old(ctx), amount, receiver, expected) is None
                    &&& *final(ctx) == (Deposit {
                        config: VaultConfig {
                            next_deposit_id: (old(ctx).config.next_deposit_id + 1) as u64,
                            ..old(ctx).config
                        },
                        ..*old(ctx)
                    })
                    &&& t == deposit_transfer(*old(ctx), amount)
                    &&& ev == deposit_event(*old(ctx), amount, receiver)
                },
                Err(e) => {
                    &&& deposit_failure(*old(ctx), amount, receiver, expected) == Some(e)
                    &&& *final(ctx) == *old(ctx)
                },
            }
        }),
        r is Ok ==> is_custody(
            old(ctx).vault_token_account,
            old(ctx).config_address@,
            associated_token_address(old(ctx).config_address@, old(ctx).allowed_token.mint@),
        ),
        r is Ok ==> final(ctx).config.next_deposit_id == old(ctx).config.next_deposit_id + 1,
{
    let expected_vault = associated_address(&ctx.config_address, &ctx.allowed_token.mint);
    deposit_to_custody(ctx, amount, receiver, expected_vault)
}

/// A deposit whose amount, receiver and mints are valid, but whose custody
/// account is not the one derived from the vault configuration and the asset,
/// is refused as an invalid custody account; the counter is then unchanged by
/// the ensures of `deposit`.
pub proof fn lemma_foreign_custody_rejected(
    ctx: Deposit,
    amount: u64,
    receiver: Pubkey,
    expected: Seq<u8>,
)
    requires
        amount > 0,
        receiver@ != null_key(),
        ctx.user_token_account.mint@ == ctx.allowed_token.mint@,
        ctx.vault_token_account.mint@ == ctx.allowed_token.mint@,
        ctx.vault_token_account.address@ != expected
            || ctx.vault_token_account.owner@ != ctx.config_address@,
    ensures
        deposit_failure(ctx, amount, receiver, expected) == Some(HakoError::InvalidVaultTokenAccount),
{
}

/// The accounts of a release from custody: the vault configuration, its
/// address and the bump of its derivation, the signer, the registered asset,
/// its custody account, and the destination wallet with its token account.
#[derive(Clone, Copy, Debug)]
pub struct BridgeToNearIntent {
    pub config_address: Pubkey,
    pub config_bump: u8,
    pub config: VaultConfig,
    pub owner: Pubkey,
    pub allowed_token: AllowedToken,
    pub vault_token_account: TokenAccount,
    pub destination_wallet: Pubkey,
    pub destination_token_account: TokenAccount,
}

/// The first check that a release fails, given the derived custody address
/// `expected`; `None` when it goes through.
pub open spec fn bridge_failure(ctx: BridgeToNearIntent, amount: u64, expected: Seq<u8>) -> Option<
    HakoError,
> {
    if ctx.owner@ != ctx.config.owner@ {
        Some(HakoError::Unauthorized)
    } else if amount == 0 {
        Some(HakoError::InvalidAmount)
    } else if ctx.vault_token_account.mint@ != ctx.allowed_token.mint@
        || ctx.destination_token_account.mint@ != ctx.allowed_token.mint@ {
        Some(HakoError::InvalidMint)
    } else if !is_custody(ctx.vault_token_account, ctx.config_address@, expected) {
        Some(HakoError::InvalidVaultTokenAccount)
    } else {
        None
    }
}

/// The transfer of a release: out of custody into the destination account,
/// signed by the vault configuration's derived address.
pub open spec fn bridge_transfer(ctx: BridgeToNearIntent, amount: u64) -> TokenTransfer {
    TokenTransfer {
        from: ctx.vault_token_account.address,
        to: ctx.destination_token_account.address,
        authority: ctx.config_address,
        amount,
        signer_bump: Some(ctx.config_bump),
    }
}

pub open spec fn bridge_event(ctx: BridgeToNearIntent, amount: u64) -> BridgedOut {
    BridgedOut {
        mint: ctx.allowed_token.mint,
        destination_wallet: ctx.destination_wallet,
        destination_token_account: ctx.destination_token_account.address,
        amount,
    }
}

/// The release of `amount` from custody, given the derived address
/// `expected_vault` of the custody account.
pub fn bridge_from_custody(ctx: &BridgeToNearIntent, amount: u64, expected_vault: Pubkey) -> (r:
    Result<(TokenTransfer, BridgedOut), HakoError>)
    ensures
        match r {
            Ok((t, ev)) => {
                &&& bridge_failure(*ctx, amount, expected_vault@) is None
                &&& t == bridge_transfer(*ctx, amount)
                &&& ev == bridge_event(*ctx, amount)
            },
            Err(e) => bridge_failure(*ctx, amount, expected_vault@) == Some(e),
        },
        ctx.owner@ != ctx.config.owner@ ==> r == Err::<(TokenTransfer, BridgedOut), HakoError>(
            HakoError::Unauthorized,
        ),
{
    if !ctx.owner.key_eq(&ctx.config.owner) {
        return Err(HakoError::Unauthorized);
    }
    if amount == 0 {
        return Err(HakoError::InvalidAmount);
    }
    if !ctx.vault_token_account.mint.key_eq(&ctx.allowed_token.mint) {
        return Err(HakoError::InvalidMint);
    }
    if !ctx.destination_token_account.mint.key_eq(&ctx.allowed_token.mint) {
        return Err(HakoError::InvalidMint);
    }
    if !ctx.vault_token_account.address.key_eq(&expected_vault) {
        return Err(HakoError::InvalidVaultTokenAccount);
    }
    if !ctx.vault_token_account.owner.key_eq(&ctx.config_address) {
        return Err(HakoError::InvalidVaultTokenAccount);
    }
    let transfer = TokenTransfer {
        from: ctx.vault_token_account.address,
        to: ctx.destination_token_account.address,
        authority: ctx.config_address,
        amount,
        signer_bump: Some(ctx.config_bump),
    };
    let event = BridgedOut {
        mint: ctx.allowed_token.mint,
        destination_wallet: ctx.destination_wallet,
        destination_token_account: ctx.destination_token_account.address,
        amount,
    };
    Ok((transfer, event))
}

/// Releases `amount` of the registered asset from its custody account to the
/// destination account, on the administrator's authority. The transfer that
/// comes back is signed by the vault itself.
pub fn bridge_to_near_intent(ctx: &BridgeToNearIntent, amount: u64) -> (r: Result<
    (TokenTransfer, BridgedOut),
    HakoError,
>)
    ensures
        ({
            let expected = associated_token_address(
                ctx.config_address@,
                ctx.allowed_token.mint@,
            );
            match r {
                Ok((t, ev)) => {
                    &&& bridge_failure(*ctx, amount, expected) is None
                    &&& t == bridge_transfer(*ctx, amount)
                    &&& ev == bridge_event(*ctx, amount)
                },
                Err(e) => bridge_failure(*ctx, amount, expected) == Some(e),
            }
        }),
        ctx.owner@ != ctx.config.owner@ ==> r == Err::<(TokenTransfer, BridgedOut), HakoError>(
            HakoError::Unauthorized,
        ),
{
    let expected_vault = associated_address(&ctx.config_address, &ctx.allowed_token.mint);
    bridge_from_custody(ctx, amount, expected_vault)
}

/// The accounts of the vault's creation: the payer and the fresh configuration.
#[derive(Clone, Copy, Debug)]
pub struct Initialize {
    pub payer: Pubkey,
    pub config: VaultConfig,
}

/// Sets up the vault configuration with `owner` as administrator and no
/// deposits made. The null identity is refused as owner.
pub fn initialize(ctx: &mut Initialize, owner: Pubkey) -> (r: Result<(), HakoError>)
    ensures
        owner@ == null_key() <==> r == Err::<(), HakoError>(HakoError::InvalidOwner),
        owner@ != null_key() ==> r == Ok::<(), HakoError>(()),
        r is Err ==> *final(ctx) == *old(ctx),
        r is Ok ==> *final(ctx) == (Initialize {
            config: VaultConfig { owner, next_deposit_id: 0 },
            ..*old(ctx)
        }),
        r is Ok ==> final(ctx).config.wf(),
{
    if owner.is_default() {
        return Err(HakoError::InvalidOwner);
    }
    ctx.config = VaultConfig { owner, next_deposit_id: 0 };
    Ok(())
}

/// The accounts of a change of administrator: the configuration and the signer.
#[derive(Clone, Copy, Debug)]
pub struct SetOwner {
    pub config: VaultConfig,
    pub owner: Pubkey,
}

/// Hands the administration to `new_owner`. Only the current owner may do so,
/// and the null identity is refused.
pub fn set_owner(ctx: &mut SetOwner, new_owner: Pubkey) -> (r: Result<OwnerUpdated, HakoError>)
    ensures
        old(ctx).owner@ != old(ctx).config.owner@ ==> r == Err::<OwnerUpdated, HakoError>(
            HakoError::Unauthorized,
        ),
        old(ctx).owner@ == old(ctx).config.owner@ ==> (new_owner@ == null_key()
            <==> r == Err::<OwnerUpdated, HakoError>(HakoError::InvalidOwner)),
        old(ctx).owner@ == old(ctx).config.owner@ && new_owner@ != null_key() ==> r == Ok::<
            OwnerUpdated,
            HakoError,
        >(OwnerUpdated { old_owner: old(ctx).owner, new_owner }),
        r is Err ==> *final(ctx) == *old(ctx),
        r is Ok ==> *final(ctx) == (SetOwner {
            config: VaultConfig { owner: new_owner, ..old(ctx).config },
            ..*old(ctx)
        }),
        r is Ok ==> final(ctx).config.wf(),
{
    if !ctx.owner.key_eq(&ctx.config.owner) {
        return Err(HakoError::Unauthorized);
    }
    if new_owner.is_default() {
        return Err(HakoError::InvalidOwner);
    }
    let old_owner = ctx.owner;
    ctx.config.owner = new_owner;
    Ok(OwnerUpdated { old_owner, new_owner })
}

/// The accounts of an asset's registration: the configuration, the signer,
/// the asset's mint, and the record to fill.
#[derive(Clone, Copy, Debug)]
pub struct AddAllowedToken {
    pub config: VaultConfig,
    pub owner: Pubkey,
    pub mint: MintAccount,
    pub allowed_token: AllowedToken,
}

/// Registers the asset of `ctx.mint` with its native precision. Only the
/// current owner may do so, and a precision above `NORMALIZED_DECIMALS` is
/// refused; on a refusal no record is written.
pub fn add_allowed_token(ctx: &mut AddAllowedToken) -> (r: Result<AllowedTokenAdded, HakoError>)
    ensures
        old(ctx).owner@ != old(ctx).config.owner@ ==> r == Err::<AllowedTokenAdded, HakoError>(
            HakoError::Unauthorized,
        ),
        old(ctx).owner@ == old(ctx).config.owner@ ==> (old(ctx).mint.decimals > NORMALIZED_DECIMALS
            <==> r == Err::<AllowedTokenAdded, HakoError>(HakoError::DecimalsTooHigh)),
        old(ctx).owner@ == old(ctx).config.owner@ && old(ctx).mint.decimals <= NORMALIZED_DECIMALS
            ==> r == Ok::<AllowedTokenAdded, HakoError>(
            AllowedTokenAdded { mint: old(ctx).mint.address, decimals: old(ctx).mint.decimals },
        ),
        r is Err ==> *final(ctx) == *old(ctx),
        r is Ok ==> *final(ctx) == (AddAllowedToken {
            allowed_token: AllowedToken {
                mint: old(ctx).mint.address,
                decimals: old(ctx).mint.decimals,
            },
            ..*old(ctx)
        }),
        r is Ok ==> final(ctx).allowed_token.wf(),
{
    if !ctx.owner.key_eq(&ctx.config.owner) {
        return Err(HakoError::Unauthorized);
    }
    if ctx.mint.decimals > NORMALIZED_DECIMALS {
        return Err(HakoError::DecimalsTooHigh);
    }
    ctx.allowed_token = AllowedToken { mint: ctx.mint.address, decimals: ctx.mint.decimals };
    Ok(AllowedTokenAdded { mint: ctx.allowed_token.mint, decimals: ctx.allowed_token.decimals })
}

} // verus!
