//! What the token metadata registry says of an asset, and the policy that
//! decides from it whether the asset is admitted.

use vstd::prelude::*;
use mpl_token_metadata::accounts::Metadata as RegistryRecord;
use mpl_token_metadata::types::TokenStandard as RegistryStandard;
use crate::error::ArenaError;
use crate::pubkey::Pubkey;
use crate::state::ArenaConfig;

verus! {

/// The token standards the registry knows.
#[derive(Clone, Copy, Debug, PartialEq, Eq, Structural)]
pub enum TokenStandard {
    NonFungible,
    FungibleAsset,
    Fungible,
    NonFungibleEdition,
    ProgrammableNonFungible,
    ProgrammableNonFungibleEdition,
}

/// A reference from an asset to the collection it claims to belong to.
#[derive(Clone, Copy, Debug, PartialEq, Eq)]
pub struct Collection {
    /// Whether the collection's authority has confirmed the claim.
    pub verified: bool,
    /// The collection.
    pub key: Pubkey,
}

/// The part of an asset's metadata record that admission depends on.
#[derive(Clone, Copy, Debug, PartialEq, Eq)]
pub struct AssetMetadata {
    /// Absent on records written before the registry had the field.
    pub token_standard: Option<TokenStandard>,
    pub collection: Option<Collection>,
}

/// What the registry's own decoder reads from the bytes of a metadata record;
/// `None` where it rejects them.
pub uninterp spec fn decoded_metadata(data: Seq<u8>) -> Option<AssetMetadata>;

/// Calls `Metadata::safe_deserialize` of the registry's SDK and keeps the
/// token standard and the collection reference of the record it returns.
/// Trusted: the result is what that decoder yields for these bytes, `None`
/// where it returns an error, and depends on nothing else.
#[verifier::external_body]
pub(crate) fn decode_metadata(data: &[u8]) -> (decoded: Option<AssetMetadata>)
    ensures
        decoded == decoded_metadata(data@),
{
    let record = RegistryRecord::safe_deserialize(data).ok()?;
    let token_standard = match record.token_standard {
        None => None,
        Some(RegistryStandard::NonFungible) => Some(TokenStandard::NonFungible),
        Some(RegistryStandard::FungibleAsset) => Some(TokenStandard::FungibleAsset),
        Some(RegistryStandard::Fungible) => Some(TokenStandard::Fungible),
        Some(RegistryStandard::NonFungibleEdition) => Some(TokenStandard::NonFungibleEdition),
        Some(RegistryStandard::ProgrammableNonFungible) => Some(TokenStandard::ProgrammableNonFungible),
        Some(RegistryStandard::ProgrammableNonFungibleEdition) => Some(TokenStandard::ProgrammableNonFungibleEdition),
    };
    let collection = record.collection.map(|c| Collection { verified: c.verified, key: Pubkey { bytes: c.key.to_bytes() } });
    Some(AssetMetadata { token_standard, collection })
}

impl AssetMetadata {
    /// Whether the record's token standard is acceptable: the plain
    /// non-fungible one, or none at all. A record without the field passes;
    /// that keeps old assets depositable and is a known gap in the policy.
    pub open spec fn standard_accepted(self) -> bool {
        match self.token_standard {
            None => true,
            Some(standard) => standard == TokenStandard::NonFungible,
        }
    }

    /// The collection under which the policy admits an asset with this
    /// metadata, given the whitelist, or the reason it refuses the asset.
    /// The checks come in this order: token standard, presence of a
    /// collection, its verification, its membership in the whitelist.
    pub open spec fn admitted_collection(self, whitelist: Seq<Pubkey>) -> Result<Pubkey, ArenaError> {
        if !self.standard_accepted() {
            Err(ArenaError::InvalidTokenStandard)
        } else {
            match self.collection {
                None => Err(ArenaError::NoCollection),
                Some(collection) => if !collection.verified {
                    Err(ArenaError::CollectionNotVerified)
                } else if !whitelist.contains(collection.key) {
                    Err(ArenaError::CollectionNotWhitelisted)
                } else {
                    Ok(collection.key)
                },
            }
        }
    }
}

/// Decides from an asset's metadata and the whitelist whether the asset is
/// admitted, and under which collection.
pub fn check_policy(metadata: &AssetMetadata, config: &ArenaConfig) -> (verdict: Result<Pubkey, ArenaError>)
    ensures
        verdict == metadata.admitted_collection(config.whitelisted_collections@),
{
    match metadata.token_standard {
        Some(TokenStandard::NonFungible) => {},
        Some(_) => {
            return Err(ArenaError::InvalidTokenStandard);
        },
        None => {},
    }
    let collection = match metadata.collection {
        Some(collection) => collection,
        None => {
            return Err(ArenaError::NoCollection);
        },
    };
    if !collection.verified {
        return Err(ArenaError::CollectionNotVerified);
    }
    if !config.is_whitelisted(&collection.key) {
        return Err(ArenaError::CollectionNotWhitelisted);
    }
    Ok(collection.key)
}

} // verus!
