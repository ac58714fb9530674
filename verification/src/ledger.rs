//! Plain pictures of what the host ledger shows an operation, and of what an
//! operation asks the ledger to do on its behalf.

use vstd::prelude::*;
use crate::pubkey::Pubkey;

verus! {

/// The ledger's clock.
#[derive(Clone, Copy, Debug, PartialEq, Eq)]
pub struct Clock {
    /// Seconds since the epoch.
    pub unix_timestamp: i64,
}

/// An asset as the token ledger records it.
#[derive(Clone, Copy, Debug, PartialEq, Eq)]
pub struct Mint {
    /// The asset's identity.
    pub key: Pubkey,
    /// Decimal places of one unit.
    pub decimals: u8,
    /// Units in existence.
    pub supply: u64,
}

/// A holding of one asset in the token ledger.
#[derive(Clone, Copy, Debug, PartialEq, Eq)]
pub struct TokenAccount {
    /// Where the holding lives.
    pub key: Pubkey,
    /// Units held.
    pub amount: u64,
}

/// A record of the metadata registry, not yet decoded.
#[derive(Clone, Debug, PartialEq, Eq)]
pub struct MetadataAccount {
    /// Where the record lives.
    pub key: Pubkey,
    /// Its bytes.
    pub data: Vec<u8>,
}

/// A request to the token ledger to move `amount` units of `mint`, asserted
/// to have `decimals` decimal places, from one holding to another.
#[derive(Clone, Copy, Debug, PartialEq, Eq)]
pub struct TransferChecked {
    pub from: Pubkey,
    pub mint: Pubkey,
    pub to: Pubkey,
    /// Who signs for the source holding.
    pub authority: Pubkey,
    pub amount: u64,
    pub decimals: u8,
}

/// One account named by an instruction.
#[derive(Clone, Copy, Debug, PartialEq, Eq)]
pub struct AccountMeta {
    pub pubkey: Pubkey,
    pub is_signer: bool,
    pub is_writable: bool,
}

impl AccountMeta {
    /// An account the instruction may write to.
    pub fn new(pubkey: Pubkey, is_signer: bool) -> (meta: AccountMeta)
        ensures
            meta == (AccountMeta { pubkey, is_signer, is_writable: true }),
    {
        AccountMeta { pubkey, is_signer, is_writable: true }
    }

    /// An account the instruction only reads.
    pub fn new_readonly(pubkey: Pubkey, is_signer: bool) -> (meta: AccountMeta)
        ensures
            meta == (AccountMeta { pubkey, is_signer, is_writable: false }),
    {
        AccountMeta { pubkey, is_signer, is_writable: false }
    }
}

/// A call into another program.
#[derive(Clone, Debug, PartialEq, Eq)]
pub struct Instruction {
    /// The program called.
    pub program_id: Pubkey,
    /// The accounts it is given, in order.
    pub accounts: Vec<AccountMeta>,
    /// The bytes it is given.
    pub data: Vec<u8>,
}

/// A call into another program that this program signs for one of its
/// derived addresses, by naming the seeds the address is derived from.
#[derive(Clone, Debug, PartialEq, Eq)]
pub struct SignedInvocation {
    pub instruction: Instruction,
    /// Seeds of the signing address, the bump last.
    pub signer_seeds: Vec<Vec<u8>>,
}

} // verus!
