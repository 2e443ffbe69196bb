//! The records that the ledger stores for the engine.

use vstd::prelude::*;

verus! {

/// A 32-byte identity on the ledger.
#[derive(Clone, Copy, Debug, PartialEq, Eq, Hash)]
pub struct Pubkey {
    pub bytes: [u8; 32],
}

impl View for Pubkey {
    type V = Seq<u8>;

    open spec fn view(&self) -> Seq<u8> {
        self.bytes@
    }
}

impl Pubkey {
    /// Wraps the raw bytes of an identity.
    pub fn new(bytes: [u8; 32]) -> (key: Pubkey)
        ensures
            key.bytes == bytes,
            key@ == bytes@,
    {
        Pubkey { bytes }
    }

    /// The raw bytes of the identity.
    pub fn to_bytes(&self) -> (bytes: [u8; 32])
        ensures
            bytes == self.bytes,
    {
        self.bytes
    }

    /// Whether two identities are the same.
    pub fn equals(&self, other: &Pubkey) -> (same: bool)
        ensures
            same == (*self == *other),
            same == (self@ == other@),
    {
        let mut i: usize = 0;
        while i < 32
            invariant
                i <= 32,
                forall|j: int| 0 <= j < i ==> self.bytes@[j] == other.bytes@[j],
            decreases 32 - i,
        {
            if self.bytes[i] != other.bytes[i] {
                return false;
            }
            i += 1;
        }
        assert(self.bytes =~= other.bytes);
        true
    }
}

/// Deployment-wide settings, one record per deployment.
#[derive(Clone, Copy, Debug, PartialEq, Eq)]
pub struct Config {
    /// The only identity allowed to withdraw from the global pool.
    pub admin: Pubkey,
    /// Derivation discriminator of the global pool's address.
    pub gcp_bump: u8,
}

impl Config {
    /// Bytes that the record occupies on the ledger, without its 8-byte tag.
    pub const INIT_SPACE: usize = 33;
}

/// The issuance record of a claim token.
#[derive(Clone, Copy, Debug, PartialEq, Eq)]
pub struct Mint {
    /// Address of the record.
    pub key: Pubkey,
    /// Claim tokens outstanding.
    pub supply: u64,
}

/// A holding of claim tokens.
#[derive(Clone, Copy, Debug, PartialEq, Eq)]
pub struct TokenAccount {
    /// Address of the holding.
    pub key: Pubkey,
    /// Who may spend the holding.
    pub owner: Pubkey,
    /// The issuance record that the tokens belong to.
    pub mint: Pubkey,
    /// Tokens held.
    pub amount: u64,
}

/// One principal deposit delegated to one validator, maturing at a fixed time.
#[derive(Clone, Copy, Debug, PartialEq, Eq)]
pub struct Bond {
    /// Identity permitted to redeem through the holder's paths.
    pub authority: Pubkey,
    /// The staking target.
    pub validator: Pubkey,
    /// The account that holds the active stake.
    pub stake_account: Pubkey,
    /// When the claim becomes redeemable.
    pub maturity_timestamp: i64,
    /// The ledger clock at creation.
    pub creation_timestamp: i64,
    /// Issuance record of the bond's claim token.
    pub corcoin_mint: Pubkey,
    /// Derivation discriminator of the bond's address.
    pub bump: u8,
}

impl Bond {
    /// Bytes that the record occupies on the ledger, without its 8-byte tag.
    pub const INIT_SPACE: usize = 145;

    /// Whether the bond can be redeemed at ledger time `now`.
    pub open spec fn matured_at(&self, now: i64) -> bool {
        now >= self.maturity_timestamp
    }

    /// Whether the bond can be redeemed at ledger time `now`.
    pub fn is_matured(&self, now: i64) -> (matured: bool)
        ensures
            matured == self.matured_at(now),
    {
        now >= self.maturity_timestamp
    }
}

} // verus!
