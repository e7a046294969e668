use vstd::prelude::*;
use crate::address::Address;
use crate::error::MarketplaceError;
use crate::list_nft::{authority_is, check_authority};
use crate::state::Asset;

verus! {

/// The new name and metadata location of an item; a part left out is
/// cleared.
pub struct UpdateNFTParams {
    pub name: Option<String>,
    pub uri: Option<String>,
}

/// The request to the item-managing program that rewrites an item's name
/// and metadata location.
pub struct MetadataUpdate {
    pub asset: Address,
    pub authority: Address,
    pub new_name: String,
    pub new_uri: String,
}

/// The accounts that updating an item touches.
pub struct UpdateNFTMetadata {
    /// The item's update authority.
    pub authority: Address,
    /// The item to update.
    pub asset: Asset,
}

/// The text given, or the empty text where none is.
pub open spec fn given_or_empty(s: Option<String>) -> Seq<char> {
    match s {
        Some(t) => t@,
        None => Seq::empty(),
    }
}

fn or_empty(s: Option<String>) -> (r: String)
    ensures
        r@ == given_or_empty(s),
{
    match s {
        Some(t) => t,
        None => String::new(),
    }
}

impl UpdateNFTMetadata {
    /// Checks that the caller is the item's update authority and returns the
    /// update request.
    pub fn update_metadata(&self, params: UpdateNFTParams) -> (r: Result<MetadataUpdate, MarketplaceError>)
        ensures
            authority_is(self.asset.update_authority, self.authority) ==> (r matches Ok(u) && {
                &&& u.asset == self.asset.key
                &&& u.authority == self.authority
                &&& u.new_name@ == given_or_empty(params.name)
                &&& u.new_uri@ == given_or_empty(params.uri)
            }),
            !authority_is(self.asset.update_authority, self.authority) ==> r == Err::<MetadataUpdate, MarketplaceError>(
                MarketplaceError::NotUpdateAuthority,
            ),
    {
        if !check_authority(&self.asset.update_authority, &self.authority) {
            return Err(MarketplaceError::NotUpdateAuthority);
        }
        Ok(MetadataUpdate {
            asset: self.asset.key,
            authority: self.authority,
            new_name: or_empty(params.name),
            new_uri: or_empty(params.uri),
        })
    }
}

} // verus!
