use vstd::prelude::*;
use crate::address::{
    check_derived, derive_escrow_address, derives_to, derive_listing_address, derive_marketplace_address,
    escrow_address, is_derived, listing_address, marketplace_address, same_address, Address,
};
use crate::error::MarketplaceError;
use crate::state::{
    Asset, Collection, CustodyStyle, Effect, Listing, ListingAccount, ListingPolicy, MarketplaceAccount, PluginKind,
    SystemAccount, UpdateAuthority,
};

verus! {

/// What the seller asks for a listing.
pub struct InitializeListingParams {
    pub price: u64,
    pub token_id: u16,
}

/// Whether `ua` names `who` as the update authority.
pub open spec fn authority_is(ua: UpdateAuthority, who: Address) -> bool {
    ua matches UpdateAuthority::Address(a) && a@ == who@
}

/// Tests whether `ua` names `who` as the update authority.
pub fn check_authority(ua: &UpdateAuthority, who: &Address) -> (r: bool)
    ensures
        r == authority_is(*ua, *who),
{
    match ua {
        UpdateAuthority::Address(a) => same_address(a, who),
        _ => false,
    }
}

/// The item once held by `escrow` in custody style `style`.
pub open spec fn escrowed(asset: Asset, escrow: Address, style: CustodyStyle) -> Asset {
    match style {
        CustodyStyle::Direct => Asset { owner: escrow, ..asset },
        CustodyStyle::Delegated => Asset {
            owner: escrow,
            transfer_delegate: Some(escrow),
            burn_delegate: Some(escrow),
            freeze_delegate: Some(escrow),
            ..asset
        },
    }
}

/// The requests, signed by `seller`, that move an item into `escrow`.
pub open spec fn escrow_effects(seller: Address, escrow: Address, style: CustodyStyle) -> Seq<Effect> {
    let transfer = Effect::TransferAsset { authority: seller, new_owner: escrow };
    match style {
        CustodyStyle::Direct => seq![transfer],
        CustodyStyle::Delegated => seq![
            Effect::AddPlugin { kind: PluginKind::TransferDelegate },
            Effect::ApprovePluginAuthority { kind: PluginKind::TransferDelegate, new_authority: escrow },
            Effect::AddPlugin { kind: PluginKind::BurnDelegate },
            Effect::ApprovePluginAuthority { kind: PluginKind::BurnDelegate, new_authority: escrow },
            Effect::AddPlugin { kind: PluginKind::FreezeDelegate },
            Effect::ApprovePluginAuthority { kind: PluginKind::FreezeDelegate, new_authority: escrow },
            transfer,
        ],
    }
}

/// The accounts that listing an item touches.
pub struct ListNFT {
    /// The marketplace program's own id, under which addresses are derived.
    pub program_id: Address,
    /// The seller, who must own the item and be its update authority.
    pub seller: SystemAccount,
    /// The item to list.
    pub asset: Asset,
    /// The item's collection, where one is given.
    pub collection: Option<Collection>,
    /// The marketplace to list on.
    pub marketplace: MarketplaceAccount,
    /// The account that will hold the listing record.
    pub listing: ListingAccount,
    /// The escrow that will hold the item.
    pub escrow: Address,
    /// How the escrow holds the item.
    pub style: CustodyStyle,
    /// Who may list on the marketplace.
    pub policy: ListingPolicy,
}

impl ListNFT {
    /// The outcome of the checks that creating the listing record makes, in
    /// order: the bumps of the listing and escrow addresses, or the first
    /// error.
    pub open spec fn check(&self) -> Result<(u8, u8), MarketplaceError> {
        let l = listing_address(self.program_id@, self.marketplace.key@, self.asset.key@);
        let e = escrow_address(self.program_id@, self.listing.key@);
        if self.asset.owner@ != self.seller.key@ {
            Err(MarketplaceError::NotAssetOwner)
        } else if !authority_is(self.asset.update_authority, self.seller.key) {
            Err(MarketplaceError::NotUpdateAuthority)
        } else if self.collection matches Some(c) && !authority_is(self.asset.update_authority, c.update_authority) {
            Err(MarketplaceError::CollectionMismatch)
        } else if self.marketplace.data is None {
            Err(MarketplaceError::AccountNotInitialized)
        } else if !is_derived(
            self.marketplace.key,
            self.marketplace.data.unwrap().bump,
            marketplace_address(self.program_id@, self.marketplace.data.unwrap().admin@),
        ) {
            Err(MarketplaceError::AddressMismatch)
        } else if self.policy == ListingPolicy::AdminOnly && self.seller.key@ != self.marketplace.data.unwrap().admin@ {
            Err(MarketplaceError::UnauthorizedCreator)
        } else if self.listing.data is Some {
            Err(MarketplaceError::AccountAlreadyInUse)
        } else if !derives_to(l, self.listing.key) || !derives_to(e, self.escrow) {
            Err(MarketplaceError::AddressMismatch)
        } else {
            Ok((l.unwrap().1, e.unwrap().1))
        }
    }

    /// The new listing record for `params`, with the given bumps.
    pub open spec fn new_listing(&self, params: InitializeListingParams, bump: u8, escrow_bump: u8) -> Listing {
        Listing {
            seller: self.seller.key,
            mint: self.asset.key,
            price: params.price,
            bump: bump,
            escrow_bump: escrow_bump,
            token_id: params.token_id,
            is_active: true,
        }
    }

    /// Creates the active listing record for the item at `params`' price.
    /// On any error nothing changes.
    pub fn initialize_listing(&mut self, params: InitializeListingParams) -> (r: Result<(), MarketplaceError>)
        ensures
            match old(self).check() {
                Ok((bump, escrow_bump)) => {
                    &&& r is Ok
                    &&& *final(self) == (ListNFT {
                        listing: ListingAccount {
                            data: Some(old(self).new_listing(params, bump, escrow_bump)),
                            ..old(self).listing
                        },
                        ..*old(self)
                    })
                },
                Err(e) => r == Err::<(), MarketplaceError>(e) && *final(self) == *old(self),
            },
    {
        if !same_address(&self.asset.owner, &self.seller.key) {
            return Err(MarketplaceError::NotAssetOwner);
        }
        if !check_authority(&self.asset.update_authority, &self.seller.key) {
            return Err(MarketplaceError::NotUpdateAuthority);
        }
        match &self.collection {
            Some(c) => {
                if !check_authority(&self.asset.update_authority, &c.update_authority) {
                    return Err(MarketplaceError::CollectionMismatch);
                }
            },
            None => {},
        }
        let (marketplace_bump, admin) = match &self.marketplace.data {
            Some(m) => (m.bump, m.admin),
            None => return Err(MarketplaceError::AccountNotInitialized),
        };
        let derived = derive_marketplace_address(&self.program_id, &admin);
        if !check_derived(&self.marketplace.key, marketplace_bump, derived) {
            return Err(MarketplaceError::AddressMismatch);
        }
        if self.policy == ListingPolicy::AdminOnly && !same_address(&self.seller.key, &admin) {
            return Err(MarketplaceError::UnauthorizedCreator);
        }
        if self.listing.data.is_some() {
            return Err(MarketplaceError::AccountAlreadyInUse);
        }
        let (listing_key, bump) = match derive_listing_address(&self.program_id, &self.marketplace.key, &self.asset.key) {
            Some(d) => d,
            None => return Err(MarketplaceError::AddressMismatch),
        };
        if !same_address(&listing_key, &self.listing.key) {
            return Err(MarketplaceError::AddressMismatch);
        }
        let (escrow_key, escrow_bump) = match derive_escrow_address(&self.program_id, &self.listing.key) {
            Some(d) => d,
            None => return Err(MarketplaceError::AddressMismatch),
        };
        if !same_address(&escrow_key, &self.escrow) {
            return Err(MarketplaceError::AddressMismatch);
        }
        self.listing.data = Some(Listing {
            seller: self.seller.key,
            mint: self.asset.key,
            price: params.price,
            bump,
            escrow_bump,
            token_id: params.token_id,
            is_active: true,
        });
        Ok(())
    }

    /// The outcome of the checks made before the item moves into escrow.
    pub open spec fn custody_check(&self) -> Result<(), MarketplaceError> {
        let l = self.listing.data.unwrap();
        if !(self.listing.data matches Some(l) && l.is_active) {
            Err(MarketplaceError::ListingNotActive)
        } else if l.seller@ != self.seller.key@ {
            Err(MarketplaceError::SellerMismatch)
        } else if l.mint@ != self.asset.key@ {
            Err(MarketplaceError::AssetMismatch)
        } else if !is_derived(self.escrow, l.escrow_bump, escrow_address(self.program_id@, self.listing.key@)) {
            Err(MarketplaceError::AddressMismatch)
        } else if self.asset.owner@ != self.seller.key@ {
            Err(MarketplaceError::NotAssetOwner)
        } else if !authority_is(self.asset.update_authority, self.seller.key) {
            Err(MarketplaceError::NotUpdateAuthority)
        } else if self.collection matches Some(c) && !authority_is(self.asset.update_authority, c.update_authority) {
            Err(MarketplaceError::CollectionMismatch)
        } else {
            Ok(())
        }
    }

    /// Moves the listed item into the listing's escrow and returns the
    /// requests to the item-managing program that do so. The seller must be
    /// the item's owner and update authority, and the item must name a given
    /// collection's update authority. On any error nothing changes.
    pub fn list_nft(&mut self) -> (r: Result<Vec<Effect>, MarketplaceError>)
        ensures
            match old(self).custody_check() {
                Ok(()) => {
                    &&& r matches Ok(effects) && effects@ == escrow_effects(old(self).seller.key, old(self).escrow, old(self).style)
                    &&& *final(self) == (ListNFT {
                        asset: escrowed(old(self).asset, old(self).escrow, old(self).style),
                        ..*old(self)
                    })
                },
                Err(e) => r == Err::<Vec<Effect>, MarketplaceError>(e) && *final(self) == *old(self),
            },
    {
        let (seller, mint, escrow_bump) = match &self.listing.data {
            Some(l) => {
                if !l.is_active {
                    return Err(MarketplaceError::ListingNotActive);
                }
                (l.seller, l.mint, l.escrow_bump)
            },
            None => return Err(MarketplaceError::ListingNotActive),
        };
        if !same_address(&seller, &self.seller.key) {
            return Err(MarketplaceError::SellerMismatch);
        }
        if !same_address(&mint, &self.asset.key) {
            return Err(MarketplaceError::AssetMismatch);
        }
        let derived = derive_escrow_address(&self.program_id, &self.listing.key);
        if !check_derived(&self.escrow, escrow_bump, derived) {
            return Err(MarketplaceError::AddressMismatch);
        }
        if !same_address(&self.asset.owner, &self.seller.key) {
            return Err(MarketplaceError::NotAssetOwner);
        }
        if !check_authority(&self.asset.update_authority, &self.seller.key) {
            return Err(MarketplaceError::NotUpdateAuthority);
        }
        match &self.collection {
            Some(c) => {
                if !check_authority(&self.asset.update_authority, &c.update_authority) {
                    return Err(MarketplaceError::CollectionMismatch);
                }
            },
            None => {},
        }
        let escrow = self.escrow;
        let seller = self.seller.key;
        let mut effects: Vec<Effect> = Vec::new();
        match self.style {
            CustodyStyle::Direct => {},
            CustodyStyle::Delegated => {
                effects.push(Effect::AddPlugin { kind: PluginKind::TransferDelegate });
                effects.push(Effect::ApprovePluginAuthority { kind: PluginKind::TransferDelegate, new_authority: escrow });
                effects.push(Effect::AddPlugin { kind: PluginKind::BurnDelegate });
                effects.push(Effect::ApprovePluginAuthority { kind: PluginKind::BurnDelegate, new_authority: escrow });
                effects.push(Effect::AddPlugin { kind: PluginKind::FreezeDelegate });
                effects.push(Effect::ApprovePluginAuthority { kind: PluginKind::FreezeDelegate, new_authority: escrow });
                self.asset.transfer_delegate = Some(escrow);
                self.asset.burn_delegate = Some(escrow);
                self.asset.freeze_delegate = Some(escrow);
            },
        }
        effects.push(Effect::TransferAsset { authority: seller, new_owner: escrow });
        self.asset.owner = escrow;
        proof {
            assert(effects@ =~= escrow_effects(old(self).seller.key, old(self).escrow, old(self).style));
        }
        Ok(effects)
    }
}

/// Once listing an item on a marketplace has passed its checks, listing the
/// same item on the same marketplace again fails for as long as the listing
/// record exists.
pub proof fn lemma_no_double_listing(first: ListNFT, again: ListNFT)
    requires
        first.check() is Ok,
        again.program_id@ == first.program_id@,
        again.marketplace.key@ == first.marketplace.key@,
        again.asset.key@ == first.asset.key@,
        again.listing.key@ == first.listing.key@ ==> again.listing.data is Some,
    ensures
        again.check() is Err,
{
}

} // verus!
