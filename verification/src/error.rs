//! Why an operation was refused.

use vstd::prelude::*;

verus! {

/// The reasons for which an operation of the arena fails. A failed operation
/// changes nothing.
#[derive(Clone, Copy, Debug, PartialEq, Eq, Structural)]
pub enum ArenaError {
    /// The caller holds neither the primary nor a delegated right.
    Unauthorized,
    /// The whitelist offered has more members than it may hold.
    TooManyCollections,
    /// The depositor's holding is not exactly one unit.
    InvalidNftAmount,
    /// The asset is divisible.
    InvalidNftDecimals,
    /// More or less than one unit of the asset exists.
    InvalidNftSupply,
    /// The metadata record is not at its canonical address, or cannot be decoded.
    InvalidMetadata,
    /// The asset declares a token standard other than the plain non-fungible one.
    InvalidTokenStandard,
    /// The asset names no collection.
    NoCollection,
    /// The asset's collection reference is not verified.
    CollectionNotVerified,
    /// The asset's collection is not on the whitelist.
    CollectionNotWhitelisted,
    /// The entity is not active.
    EnemyNotActive,
    /// A record already exists where one was to be created.
    AccountAlreadyInUse,
    /// The kill counter is at its greatest value.
    KillCounterOverflow,
}

/// The classes into which the reasons fall.
#[derive(Clone, Copy, Debug, PartialEq, Eq, Structural)]
pub enum ErrorKind {
    Authorization,
    Configuration,
    AssetShape,
    Metadata,
    Policy,
    State,
    Overflow,
    Duplicate,
}

impl ArenaError {
    pub open spec fn spec_kind(self) -> ErrorKind {
        match self {
            ArenaError::Unauthorized => ErrorKind::Authorization,
            ArenaError::TooManyCollections => ErrorKind::Configuration,
            ArenaError::InvalidNftAmount => ErrorKind::AssetShape,
            ArenaError::InvalidNftDecimals => ErrorKind::AssetShape,
            ArenaError::InvalidNftSupply => ErrorKind::AssetShape,
            ArenaError::InvalidMetadata => ErrorKind::Metadata,
            ArenaError::InvalidTokenStandard => ErrorKind::Policy,
            ArenaError::NoCollection => ErrorKind::Policy,
            ArenaError::CollectionNotVerified => ErrorKind::Policy,
            ArenaError::CollectionNotWhitelisted => ErrorKind::Policy,
            ArenaError::EnemyNotActive => ErrorKind::State,
            ArenaError::AccountAlreadyInUse => ErrorKind::Duplicate,
            ArenaError::KillCounterOverflow => ErrorKind::Overflow,
        }
    }

    /// The class of this reason.
    #[verifier::when_used_as_spec(spec_kind)]
    pub fn kind(self) -> (kind: ErrorKind)
        ensures
            kind == self.spec_kind(),
    {
        match self {
            ArenaError::Unauthorized => ErrorKind::Authorization,
            ArenaError::TooManyCollections => ErrorKind::Configuration,
            ArenaError::InvalidNftAmount
            | ArenaError::InvalidNftDecimals
            | ArenaError::InvalidNftSupply => ErrorKind::AssetShape,
            ArenaError::InvalidMetadata => ErrorKind::Metadata,
            ArenaError::InvalidTokenStandard
            | ArenaError::NoCollection
            | ArenaError::CollectionNotVerified
            | ArenaError::CollectionNotWhitelisted => ErrorKind::Policy,
            ArenaError::EnemyNotActive => ErrorKind::State,
            ArenaError::AccountAlreadyInUse => ErrorKind::Duplicate,
            ArenaError::KillCounterOverflow => ErrorKind::Overflow,
        }
    }

    pub open spec fn spec_message(self) -> Seq<char> {
        match self {
            ArenaError::Unauthorized => "Unauthorized"@,
            ArenaError::TooManyCollections => "Too many collections (max 5)"@,
            ArenaError::InvalidNftAmount => "NFT amount must be 1"@,
            ArenaError::InvalidNftDecimals => "NFT decimals must be 0"@,
            ArenaError::InvalidNftSupply => "NFT supply must be 1"@,
            ArenaError::InvalidMetadata => "Invalid metadata account"@,
            ArenaError::InvalidTokenStandard => "Token standard must be NonFungible"@,
            ArenaError::NoCollection => "NFT has no collection"@,
            ArenaError::CollectionNotVerified => "Collection is not verified"@,
            ArenaError::CollectionNotWhitelisted => "Collection is not whitelisted"@,
            ArenaError::EnemyNotActive => "Enemy is not active"@,
            ArenaError::AccountAlreadyInUse => "Account already in use"@,
            ArenaError::KillCounterOverflow => "Kill counter overflow"@,
        }
    }

    /// The text shown for this reason.
    pub fn message(self) -> (text: &'static str)
        ensures
            text@ == self.spec_message(),
    {
        match self {
            ArenaError::Unauthorized => "Unauthorized",
            ArenaError::TooManyCollections => "Too many collections (max 5)",
            ArenaError::InvalidNftAmount => "NFT amount must be 1",
            ArenaError::InvalidNftDecimals => "NFT decimals must be 0",
            ArenaError::InvalidNftSupply => "NFT supply must be 1",
            ArenaError::InvalidMetadata => "Invalid metadata account",
            ArenaError::InvalidTokenStandard => "Token standard must be NonFungible",
            ArenaError::NoCollection => "NFT has no collection",
            ArenaError::CollectionNotVerified => "Collection is not verified",
            ArenaError::CollectionNotWhitelisted => "Collection is not whitelisted",
            ArenaError::EnemyNotActive => "Enemy is not active",
            ArenaError::AccountAlreadyInUse => "Account already in use",
            ArenaError::KillCounterOverflow => "Kill counter overflow",
        }
    }
}

} // verus!
