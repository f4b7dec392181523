//! What the program reads of the token service's records.

use vstd::prelude::*;
use crate::address::Address;

verus! {

/// What the program reads of a holding account's record.
#[derive(Clone, Copy, Debug, PartialEq, Eq)]
pub struct TokenAccount {
    /// The wallet that the holding account belongs to.
    pub owner: Address,
    /// Whether the token service has initialized the account.
    pub is_initialized: bool,
}

/// What a `TokenAccount` stands for.
pub struct TokenAccountView {
    pub owner: Seq<u8>,
    pub is_initialized: bool,
}

impl View for TokenAccount {
    type V = TokenAccountView;

    open spec fn view(&self) -> TokenAccountView {
        TokenAccountView { owner: self.owner@, is_initialized: self.is_initialized }
    }
}

/// The view of a record that may have failed to decode.
pub open spec fn record_view(r: Result<TokenAccount, u64>) -> Result<TokenAccountView, u64> {
    match r {
        Ok(record) => Ok(record@),
        Err(code) => Err(code),
    }
}

/// The holding account's record that `spl_token_2022` decodes from `data`, extensions
/// included; or the ledger's code of the failure to decode one.
pub uninterp spec fn token_account_record(data: Seq<u8>) -> Result<TokenAccountView, u64>;

/// The number of decimals of the asset whose record `spl_token_2022` decodes from `data`; or
/// the ledger's code of the failure to decode one.
pub uninterp spec fn mint_decimals(data: Seq<u8>) -> Result<u8, u64>;

/// Calls `spl_token_2022::extension::StateWithExtensions::<Account>::unpack` and hands out
/// the record's owner and whether it is initialized. The result depends on the bytes alone.
#[verifier::external_body]
pub(crate) fn unpack_token_account(data: &[u8]) -> (r: Result<TokenAccount, u64>)
    ensures
        record_view(r) == token_account_record(data@),
{
    let state = spl_token_2022::extension::StateWithExtensions::<
        spl_token_2022::state::Account,
    >::unpack(data).map_err(u64::from)?;
    Ok(TokenAccount {
        owner: Address { bytes: state.base.owner.to_bytes() },
        is_initialized: solana_program::program_pack::IsInitialized::is_initialized(&state.base),
    })
}

/// Calls `spl_token_2022::extension::StateWithExtensions::<Mint>::unpack` and hands out the
/// asset's number of decimals. The result depends on the bytes alone.
#[verifier::external_body]
pub(crate) fn unpack_mint_decimals(data: &[u8]) -> (r: Result<u8, u64>)
    ensures
        r == mint_decimals(data@),
{
    let state = spl_token_2022::extension::StateWithExtensions::<
        spl_token_2022::state::Mint,
    >::unpack(data).map_err(u64::from)?;
    Ok(state.base.decimals)
}

} // verus!
