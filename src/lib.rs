//! A marketplace for unique assets: marketplace registration, listing into a
//! keyless escrow, purchase with a fee split to a treasury, and early
//! redemption for half the fee.
//!
//! Each operation takes the accounts it touches, checks them, and either
//! leaves every account unchanged and returns the first error, or applies all
//! of its changes and returns the requests (payments, custody changes) that
//! the ledger must carry out, in order.
use vstd::prelude::*;

pub mod address;
pub mod create_nft;
pub mod error;
pub mod fees;
pub mod initialize_marketplace;
pub mod list_nft;
pub mod purchase;
pub mod redeem;
pub mod state;
pub mod update_nft;

use crate::create_nft::{AssetCreation, CreateNFT, CreateNFTParams};
use crate::error::MarketplaceError;
use crate::initialize_marketplace::InitializeMarketplace;
use crate::list_nft::{escrow_effects, escrowed, InitializeListingParams, ListNFT};
use crate::purchase::Purchase;
use crate::state::{Effect, ListingAccount};
use crate::update_nft::{MetadataUpdate, UpdateNFTMetadata};

verus! {

/// The name and fee rate of a new marketplace.
pub struct InitializeParams {
    pub name: String,
    pub fee_bps: u16,
}

/// Registers a marketplace and funds its treasury.
pub fn initialize(ctx: &mut InitializeMarketplace, params: InitializeParams) -> (r: Result<Vec<Effect>, MarketplaceError>)
    ensures
        match old(ctx).check(params.name@, params.fee_bps) {
            Ok((bump, treasury_bump)) => {
                &&& r matches Ok(effects) && effects@ == old(ctx).funding_effects()
                &&& *final(ctx) == old(ctx).initialized(params.name, params.fee_bps, bump, treasury_bump)
            },
            Err(e) => r == Err::<Vec<Effect>, MarketplaceError>(e) && *final(ctx) == *old(ctx),
        },
{
    ctx.handle(params.name, params.fee_bps)
}

/// Checks and returns the request that creates a new item.
pub fn create_nft(ctx: &CreateNFT, params: CreateNFTParams) -> (r: Result<AssetCreation, MarketplaceError>)
    ensures
        match ctx.check() {
            Ok(()) => r matches Ok(c) && c == (AssetCreation {
                asset: ctx.asset,
                owner: ctx.creator,
                update_authority: ctx.creator,
                collection: match ctx.collection {
                    Some(col) => Some(col.key),
                    None => None,
                },
                name: params.name,
                uri: params.uri,
            }),
            Err(e) => r == Err::<AssetCreation, MarketplaceError>(e),
        },
{
    ctx.create_nft(params)
}

/// Checks and returns the request that rewrites an item's metadata.
pub fn modify_nft(ctx: &UpdateNFTMetadata, params: crate::update_nft::UpdateNFTParams) -> (r: Result<MetadataUpdate, MarketplaceError>)
    ensures
        crate::list_nft::authority_is(ctx.asset.update_authority, ctx.authority) ==> (r matches Ok(u) && {
            &&& u.asset == ctx.asset.key
            &&& u.authority == ctx.authority
            &&& u.new_name@ == crate::update_nft::given_or_empty(params.name)
            &&& u.new_uri@ == crate::update_nft::given_or_empty(params.uri)
        }),
        !crate::list_nft::authority_is(ctx.asset.update_authority, ctx.authority) ==> r == Err::<MetadataUpdate, MarketplaceError>(
            MarketplaceError::NotUpdateAuthority,
        ),
{
    ctx.update_metadata(params)
}

/// Lists an item: creates its active listing record and moves it into the
/// listing's escrow, or changes nothing.
pub fn list_nft(ctx: &mut ListNFT, params: InitializeListingParams) -> (r: Result<Vec<Effect>, MarketplaceError>)
    ensures
        match old(ctx).check() {
            Ok((bump, escrow_bump)) => {
                &&& r matches Ok(effects) && effects@ == escrow_effects(old(ctx).seller.key, old(ctx).escrow, old(ctx).style)
                &&& *final(ctx) == (ListNFT {
                    listing: ListingAccount {
                        data: Some(old(ctx).new_listing(params, bump, escrow_bump)),
                        ..old(ctx).listing
                    },
                    asset: escrowed(old(ctx).asset, old(ctx).escrow, old(ctx).style),
                    ..*old(ctx)
                })
            },
            Err(e) => r == Err::<Vec<Effect>, MarketplaceError>(e) && *final(ctx) == *old(ctx),
        },
{
    match ctx.initialize_listing(params) {
        Ok(()) => {},
        Err(e) => return Err(e),
    }
    ctx.list_nft()
}

/// Buys a listed item: the buyer pays the fee to the treasury and the rest
/// to the seller, the escrow releases the item to the buyer, and the listing
/// closes; or nothing changes.
pub fn purchase_nft(ctx: &mut Purchase) -> (r: Result<Vec<Effect>, MarketplaceError>)
    ensures
        match old(ctx).check() {
            Ok((fee, seller_amount)) => {
                &&& r matches Ok(effects) && effects@ == old(ctx).payment_effects(fee, seller_amount).push(
                    Effect::TransferAsset { authority: old(ctx).escrow, new_owner: old(ctx).buyer.key },
                )
                &&& *final(ctx) == old(ctx).paid(fee, seller_amount).released()
            },
            Err(e) => r == Err::<Vec<Effect>, MarketplaceError>(e) && *final(ctx) == *old(ctx),
        },
{
    let mut effects = match ctx.make_payment() {
        Ok(effects) => effects,
        Err(e) => return Err(e),
    };
    let mut released = match ctx.transfer_nft() {
        Ok(released) => released,
        Err(e) => return Err(e),
    };
    effects.append(&mut released);
    Ok(effects)
}

} // verus!
