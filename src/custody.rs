use vstd::prelude::*;

use crate::key::Pubkey;

verus! {

/// The associated token account address of `wallet` for `mint`, as the
/// associated-token program derives it.
pub uninterp spec fn associated_token_address(wallet: Seq<u8>, mint: Seq<u8>) -> Seq<u8>;

/// Relies on anchor_spl::associated_token::get_associated_token_address
/// (spl-associated-token-account): a deterministic derivation from the wallet
/// and the mint alone. Its search for a bump seed panics only in the
/// statistically improbable event that no seed yields an address.
#[verifier::external_body]
pub(crate) fn associated_address(wallet: &Pubkey, mint: &Pubkey) -> (r: Pubkey)
    ensures
        r@ == associated_token_address(wallet@, mint@),
{
    let w = anchor_lang::prelude::Pubkey::new_from_array(wallet.bytes);
    let m = anchor_lang::prelude::Pubkey::new_from_array(mint.bytes);
    let a = anchor_spl::associated_token::get_associated_token_address(&w, &m);
    Pubkey { bytes: a.to_bytes() }
}

} // verus!
