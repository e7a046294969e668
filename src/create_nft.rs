use vstd::prelude::*;
use crate::address::{check_derived, derive_marketplace_address, is_derived, marketplace_address, same_address, Address};
use crate::error::MarketplaceError;
use crate::state::{Collection, MarketplaceAccount};

verus! {

/// The name and metadata location of a new item.
pub struct CreateNFTParams {
    pub name: String,
    pub uri: String,
}

/// The request to the item-managing program that creates an item owned and
/// updated by its creator.
pub struct AssetCreation {
    pub asset: Address,
    pub owner: Address,
    pub update_authority: Address,
    pub collection: Option<Address>,
    pub name: String,
    pub uri: String,
}

/// The accounts that creating an item touches.
pub struct CreateNFT {
    /// The marketplace program's own id, under which addresses are derived.
    pub program_id: Address,
    /// The creator, who must run the marketplace.
    pub creator: Address,
    /// The address the new item will have.
    pub asset: Address,
    /// The collection the item will join, where one is given.
    pub collection: Option<Collection>,
    /// The creator's marketplace.
    pub marketplace: MarketplaceAccount,
}

impl CreateNFT {
    /// The outcome of the checks made before an item is created.
    pub open spec fn check(&self) -> Result<(), MarketplaceError> {
        let m = self.marketplace.data.unwrap();
        if self.collection matches Some(c) && c.update_authority@ != self.creator@ {
            Err(MarketplaceError::NotUpdateAuthority)
        } else if self.marketplace.data is None {
            Err(MarketplaceError::AccountNotInitialized)
        } else if !is_derived(self.marketplace.key, m.bump, marketplace_address(self.program_id@, self.creator@)) {
            Err(MarketplaceError::AddressMismatch)
        } else if m.admin@ != self.creator@ {
            Err(MarketplaceError::UnauthorizedCreator)
        } else {
            Ok(())
        }
    }

    /// Checks that the marketplace's admin creates the item and returns the
    /// creation request, with the creator as owner and update authority.
    pub fn create_nft(&self, params: CreateNFTParams) -> (r: Result<AssetCreation, MarketplaceError>)
        ensures
            match self.check() {
                Ok(()) => r matches Ok(c) && c == (AssetCreation {
                    asset: self.asset,
                    owner: self.creator,
                    update_authority: self.creator,
                    collection: match self.collection {
                        Some(col) => Some(col.key),
                        None => None,
                    },
                    name: params.name,
                    uri: params.uri,
                }),
                Err(e) => r == Err::<AssetCreation, MarketplaceError>(e),
            },
    {
        let collection = match &self.collection {
            Some(c) => {
                if !same_address(&c.update_authority, &self.creator) {
                    return Err(MarketplaceError::NotUpdateAuthority);
                }
                Some(c.key)
            },
            None => None,
        };
        let (bump, admin) = match &self.marketplace.data {
            Some(m) => (m.bump, m.admin),
            None => return Err(MarketplaceError::AccountNotInitialized),
        };
        if !check_derived(&self.marketplace.key, bump, derive_marketplace_address(&self.program_id, &self.creator)) {
            return Err(MarketplaceError::AddressMismatch);
        }
        if !same_address(&admin, &self.creator) {
            return Err(MarketplaceError::UnauthorizedCreator);
        }
        Ok(AssetCreation {
            asset: self.asset,
            owner: self.creator,
            update_authority: self.creator,
            collection,
            name: params.name,
            uri: params.uri,
        })
    }
}

} // verus!
