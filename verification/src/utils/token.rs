//! Requests to the token subsystem.

use crate::state::Pubkey;
use vstd::prelude::*;

verus! {

/// The issue of new claim tokens into a token account.
#[derive(Clone, Copy, Debug, PartialEq, Eq)]
pub struct TokenMint {
    /// The issuance record.
    pub mint: Pubkey,
    /// The token account that receives the tokens.
    pub to: Pubkey,
    /// Who signs for the issuance record.
    pub authority: Pubkey,
    /// How many tokens.
    pub amount: u64,
}

/// The destruction of claim tokens held in a token account.
#[derive(Clone, Copy, Debug, PartialEq, Eq)]
pub struct TokenBurn {
    /// The issuance record.
    pub mint: Pubkey,
    /// The token account that the tokens are taken from.
    pub from: Pubkey,
    /// Who signs for the token account.
    pub authority: Pubkey,
    /// How many tokens.
    pub amount: u64,
}

/// A transfer of claim tokens between two token accounts.
#[derive(Clone, Copy, Debug, PartialEq, Eq)]
pub struct TokenTransfer {
    /// The token account that the tokens are taken from.
    pub from: Pubkey,
    /// The token account that receives them.
    pub to: Pubkey,
    /// Who signs for the first.
    pub authority: Pubkey,
    /// How many tokens.
    pub amount: u64,
}

/// The closing of a token account.
#[derive(Clone, Copy, Debug, PartialEq, Eq)]
pub struct TokenAccountClosure {
    /// The token account to close.
    pub account: Pubkey,
    /// Who receives what the account held to stay alive.
    pub destination: Pubkey,
    /// Who signs for the account.
    pub authority: Pubkey,
}

/// Requests the issue of `amount` tokens of `mint` into `to`, signed for by
/// `authority`.
pub fn token_mint_to(mint: Pubkey, to: Pubkey, authority: Pubkey, amount: u64) -> (request: TokenMint)
    ensures
        request == (TokenMint { mint, to, authority, amount }),
{
    TokenMint { mint, to, authority, amount }
}

/// Requests the transfer of `amount` tokens from `from` to `to`, signed for by
/// `authority`.
pub fn token_transfer(from: Pubkey, to: Pubkey, authority: Pubkey, amount: u64) -> (request:
    TokenTransfer)
    ensures
        request == (TokenTransfer { from, to, authority, amount }),
{
    TokenTransfer { from, to, authority, amount }
}

/// Requests the destruction of `amount` tokens of `mint` held in `from`,
/// signed for by `authority`.
pub fn token_burn(mint: Pubkey, from: Pubkey, authority: Pubkey, amount: u64) -> (request: TokenBurn)
    ensures
        request == (TokenBurn { mint, from, authority, amount }),
{
    TokenBurn { mint, from, authority, amount }
}

/// Requests the closing of `account` in favour of `destination`, signed for by
/// `authority`.
pub fn token_close_account(account: Pubkey, destination: Pubkey, authority: Pubkey) -> (request:
    TokenAccountClosure)
    ensures
        request == (TokenAccountClosure { account, destination, authority }),
{
    TokenAccountClosure { account, destination, authority }
}

} // verus!
