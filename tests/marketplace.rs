use anchor_lang::prelude::Pubkey;
use anchor_marketplace::address::{
    derive_account_addresses, derive_escrow_address, derive_listing_address, derive_marketplace_address,
    derive_treasury_address, same_address, AccountAddresses, Address,
};
use anchor_marketplace::create_nft::{CreateNFT, CreateNFTParams};
use anchor_marketplace::error::MarketplaceError;
use anchor_marketplace::fees::{redeem_fee, split_payment};
use anchor_marketplace::initialize_marketplace::InitializeMarketplace;
use anchor_marketplace::list_nft::{InitializeListingParams, ListNFT};
use anchor_marketplace::purchase::Purchase;
use anchor_marketplace::redeem::RedeemNFT;
use anchor_marketplace::state::{
    Asset, Collection, CustodyStyle, Effect, Listing, ListingAccount, ListingPolicy, MarketplaceAccount, PluginKind,
    SystemAccount, UpdateAuthority,
};
use anchor_marketplace::update_nft::{UpdateNFTMetadata, UpdateNFTParams};
use anchor_marketplace::{create_nft, initialize, list_nft, modify_nft, purchase_nft, InitializeParams};

const PROGRAM: Address = [7; 32];
const ADMIN: Address = [1; 32];
const BUYER: Address = [2; 32];
const ITEM: Address = [3; 32];
const RENT: u64 = 890_880;

fn addresses() -> AccountAddresses {
    derive_account_addresses(&PROGRAM, &ADMIN, &ITEM).unwrap()
}

fn fresh_asset() -> Asset {
    Asset {
        key: ITEM,
        owner: ADMIN,
        update_authority: UpdateAuthority::Address(ADMIN),
        transfer_delegate: None,
        burn_delegate: None,
        freeze_delegate: None,
        frozen: false,
        burned: false,
    }
}

fn init_ctx() -> InitializeMarketplace {
    let a = addresses();
    InitializeMarketplace {
        program_id: PROGRAM,
        admin: SystemAccount { key: ADMIN, lamports: 10_000_000 },
        treasury: SystemAccount { key: a.treasury.0, lamports: 0 },
        marketplace: MarketplaceAccount { key: a.marketplace.0, data: None },
        rent_minimum: RENT,
    }
}

fn params(name: &str, fee_bps: u16) -> InitializeParams {
    InitializeParams { name: name.to_string(), fee_bps }
}

fn initialized(fee_bps: u16) -> InitializeMarketplace {
    let mut ctx = init_ctx();
    initialize(&mut ctx, params("shop", fee_bps)).unwrap();
    ctx
}

fn list_ctx(init: InitializeMarketplace, style: CustodyStyle) -> (ListNFT, SystemAccount) {
    let a = addresses();
    let ctx = ListNFT {
        program_id: PROGRAM,
        seller: init.admin,
        asset: fresh_asset(),
        collection: None,
        marketplace: init.marketplace,
        listing: ListingAccount { key: a.listing.0, lamports: 0, data: None },
        escrow: a.escrow.0,
        style,
        policy: ListingPolicy::AdminOnly,
    };
    (ctx, init.treasury)
}

fn listed(fee_bps: u16, price: u64, style: CustodyStyle) -> (ListNFT, SystemAccount) {
    let (mut ctx, treasury) = list_ctx(initialized(fee_bps), style);
    list_nft(&mut ctx, InitializeListingParams { price, token_id: 1 }).unwrap();
    (ctx, treasury)
}

fn purchase_ctx(listed: ListNFT, treasury: SystemAccount, buyer_lamports: u64) -> Purchase {
    Purchase {
        program_id: PROGRAM,
        buyer: SystemAccount { key: BUYER, lamports: buyer_lamports },
        seller: listed.seller,
        asset: listed.asset,
        escrow: listed.escrow,
        listing: listed.listing,
        marketplace: listed.marketplace,
        treasury,
    }
}

fn redeem_ctx(listed: ListNFT, treasury: SystemAccount) -> RedeemNFT {
    RedeemNFT {
        program_id: PROGRAM,
        owner: listed.seller,
        asset: listed.asset,
        marketplace: listed.marketplace,
        treasury,
        listing: listed.listing,
        escrow: listed.escrow,
    }
}

fn pda(seeds: &[&[u8]]) -> (Address, u8) {
    let (key, bump) = Pubkey::find_program_address(seeds, &Pubkey::new_from_array(PROGRAM));
    (key.to_bytes(), bump)
}

#[test]
fn split_adds_up_to_price() {
    assert_eq!(split_payment(1000, 500), Ok((50, 950)));
    assert_eq!(split_payment(999, 333), Ok((33, 966)));
    assert_eq!(split_payment(0, 500), Ok((0, 0)));
    assert_eq!(split_payment(1000, 0), Ok((0, 1000)));
    for (price, bps) in [(1u64, 1u16), (12345, 250), (u64::MAX / 10000, 10000), (7, 9999)] {
        let (fee, rest) = split_payment(price, bps).unwrap();
        assert_eq!(fee + rest, price);
        assert_eq!(fee as u128, (price as u128 * bps as u128) / 10000);
    }
}

#[test]
fn split_overflow_is_refused() {
    assert_eq!(split_payment(u64::MAX, 2), Err(MarketplaceError::MathOverflowError));
    assert_eq!(redeem_fee(u64::MAX, 2), Err(MarketplaceError::MathOverflowError));
}

#[test]
fn full_rate_takes_whole_price() {
    assert_eq!(split_payment(1000, 10000), Ok((1000, 0)));
}

#[test]
fn redeem_fee_is_half_the_fee() {
    assert_eq!(redeem_fee(1000, 500), Ok(25));
    assert_eq!(redeem_fee(1000, 10), Ok(0));
    assert_eq!(redeem_fee(1030, 1000), Ok(51));
}

#[test]
fn fee_rate_above_full_is_refused() {
    let mut ctx = init_ctx();
    assert_eq!(initialize(&mut ctx, params("shop", 10001)).unwrap_err(), MarketplaceError::InvalidFeeBps);
    assert!(ctx.marketplace.data.is_none());
    assert_eq!(ctx.admin.lamports, 10_000_000);
    let mut ctx = init_ctx();
    assert_eq!(initialize(&mut ctx, params("shop", u16::MAX)).unwrap_err(), MarketplaceError::InvalidFeeBps);
}

#[test]
fn fee_rate_of_full_is_accepted() {
    let mut ctx = init_ctx();
    let effects = initialize(&mut ctx, params("shop", 10000)).unwrap();
    assert_eq!(ctx.marketplace.data.as_ref().unwrap().fee_bps, 10000);
    assert_eq!(effects, vec![Effect::Pay { from: ADMIN, to: ctx.treasury.key, amount: RENT }]);
}

#[test]
fn initialize_stores_record_and_funds_treasury() {
    let ctx = initialized(500);
    let a = addresses();
    let m = ctx.marketplace.data.as_ref().unwrap();
    assert_eq!(m.admin, ADMIN);
    assert_eq!(m.name, "shop");
    assert_eq!(m.fee_bps, 500);
    assert_eq!(m.bump, a.marketplace.1);
    assert_eq!(m.treasury_bump, a.treasury.1);
    assert_eq!(ctx.admin.lamports, 10_000_000 - RENT);
    assert_eq!(ctx.treasury.lamports, RENT);
}

#[test]
fn empty_name_is_refused() {
    let mut ctx = init_ctx();
    assert_eq!(initialize(&mut ctx, params("", 500)).unwrap_err(), MarketplaceError::UndefinedName);
}

#[test]
fn long_name_is_refused() {
    let mut ctx = init_ctx();
    let name = "a".repeat(33);
    assert_eq!(initialize(&mut ctx, params(&name, 500)).unwrap_err(), MarketplaceError::NameTooLong);
    let mut ctx = init_ctx();
    let name = "é".repeat(17);
    assert_eq!(initialize(&mut ctx, params(&name, 500)).unwrap_err(), MarketplaceError::NameTooLong);
}

#[test]
fn name_of_32_bytes_is_accepted() {
    let mut ctx = init_ctx();
    let name = "a".repeat(32);
    assert!(initialize(&mut ctx, params(&name, 500)).is_ok());
    assert_eq!(ctx.marketplace.data.unwrap().name, name);
}

#[test]
fn initialize_twice_is_refused() {
    let mut ctx = initialized(500);
    assert_eq!(initialize(&mut ctx, params("shop", 500)).unwrap_err(), MarketplaceError::AccountAlreadyInUse);
}

#[test]
fn initialize_with_wrong_treasury_is_refused() {
    let mut ctx = init_ctx();
    ctx.treasury.key = [9; 32];
    assert_eq!(initialize(&mut ctx, params("shop", 500)).unwrap_err(), MarketplaceError::AddressMismatch);
}

#[test]
fn initialize_without_rent_is_refused() {
    let mut ctx = init_ctx();
    ctx.admin.lamports = RENT - 1;
    assert_eq!(initialize(&mut ctx, params("shop", 500)).unwrap_err(), MarketplaceError::InsufficientFunds);
    assert_eq!(ctx.admin.lamports, RENT - 1);
    assert_eq!(ctx.treasury.lamports, 0);
}

#[test]
fn initialize_treasury_overflow_is_refused() {
    let mut ctx = init_ctx();
    ctx.treasury.lamports = u64::MAX;
    assert_eq!(initialize(&mut ctx, params("shop", 500)).unwrap_err(), MarketplaceError::MathOverflowError);
}

#[test]
fn derivation_matches_ledger_derivation() {
    let a = addresses();
    assert_eq!(a.marketplace, pda(&[b"marketplace", &ADMIN]));
    assert_eq!(a.treasury, pda(&[b"treasury", &a.marketplace.0]));
    assert_eq!(a.listing, pda(&[b"listing", &a.marketplace.0, &ITEM]));
    assert_eq!(a.escrow, pda(&[b"escrow", &a.listing.0]));
    assert_ne!(a.marketplace.0, ADMIN);
    assert_ne!(a.marketplace.0, a.treasury.0);
}

#[test]
fn rederivation_is_deterministic() {
    assert_eq!(derive_account_addresses(&PROGRAM, &ADMIN, &ITEM), derive_account_addresses(&PROGRAM, &ADMIN, &ITEM));
    let m = derive_marketplace_address(&PROGRAM, &ADMIN).unwrap();
    assert_eq!(Some(m), derive_marketplace_address(&PROGRAM, &ADMIN));
    assert_eq!(derive_treasury_address(&PROGRAM, &m.0), derive_treasury_address(&PROGRAM, &m.0));
    let l = derive_listing_address(&PROGRAM, &m.0, &ITEM).unwrap();
    assert_eq!(Some(l), derive_listing_address(&PROGRAM, &m.0, &ITEM));
    assert_eq!(derive_escrow_address(&PROGRAM, &l.0), derive_escrow_address(&PROGRAM, &l.0));
    assert_ne!(derive_marketplace_address(&PROGRAM, &BUYER), Some(m));
}

#[test]
fn same_address_compares_bytes() {
    let mut other = ADMIN;
    assert!(same_address(&ADMIN, &other));
    other[31] = 0;
    assert!(!same_address(&ADMIN, &other));
}

#[test]
fn list_moves_item_into_escrow_with_delegates() {
    let (mut ctx, _) = list_ctx(initialized(500), CustodyStyle::Delegated);
    let a = addresses();
    let effects = list_nft(&mut ctx, InitializeListingParams { price: 1000, token_id: 4 }).unwrap();
    let escrow = a.escrow.0;
    assert_eq!(
        effects,
        vec![
            Effect::AddPlugin { kind: PluginKind::TransferDelegate },
            Effect::ApprovePluginAuthority { kind: PluginKind::TransferDelegate, new_authority: escrow },
            Effect::AddPlugin { kind: PluginKind::BurnDelegate },
            Effect::ApprovePluginAuthority { kind: PluginKind::BurnDelegate, new_authority: escrow },
            Effect::AddPlugin { kind: PluginKind::FreezeDelegate },
            Effect::ApprovePluginAuthority { kind: PluginKind::FreezeDelegate, new_authority: escrow },
            Effect::TransferAsset { authority: ADMIN, new_owner: escrow },
        ]
    );
    assert_eq!(ctx.asset.owner, escrow);
    assert_eq!(ctx.asset.transfer_delegate, Some(escrow));
    assert_eq!(ctx.asset.burn_delegate, Some(escrow));
    assert_eq!(ctx.asset.freeze_delegate, Some(escrow));
    let l = ctx.listing.data.as_ref().unwrap();
    assert_eq!(l.seller, ADMIN);
    assert_eq!(l.mint, ITEM);
    assert_eq!(l.price, 1000);
    assert_eq!(l.token_id, 4);
    assert_eq!(l.bump, a.listing.1);
    assert_eq!(l.escrow_bump, a.escrow.1);
    assert!(l.is_active);
    assert_eq!(l.get_price_by_token_id(), 1000);
}

#[test]
fn list_direct_only_transfers() {
    let (mut ctx, _) = list_ctx(initialized(500), CustodyStyle::Direct);
    let escrow = ctx.escrow;
    let effects = list_nft(&mut ctx, InitializeListingParams { price: 1000, token_id: 0 }).unwrap();
    assert_eq!(effects, vec![Effect::TransferAsset { authority: ADMIN, new_owner: escrow }]);
    assert_eq!(ctx.asset.owner, escrow);
    assert_eq!(ctx.asset.transfer_delegate, None);
}

#[test]
fn second_listing_of_same_item_is_refused() {
    let (mut ctx, _) = listed(500, 1000, CustodyStyle::Delegated);
    ctx.asset = fresh_asset();
    let err = list_nft(&mut ctx, InitializeListingParams { price: 2000, token_id: 1 }).unwrap_err();
    assert_eq!(err, MarketplaceError::AccountAlreadyInUse);
    assert_eq!(ctx.listing.data.as_ref().unwrap().price, 1000);
}

#[test]
fn listing_item_not_owned_is_refused() {
    let (mut ctx, _) = list_ctx(initialized(500), CustodyStyle::Delegated);
    ctx.asset.owner = BUYER;
    let err = list_nft(&mut ctx, InitializeListingParams { price: 1000, token_id: 1 }).unwrap_err();
    assert_eq!(err, MarketplaceError::NotAssetOwner);
    assert!(ctx.listing.data.is_none());
    assert_eq!(ctx.asset, Asset { owner: BUYER, ..fresh_asset() });
}

#[test]
fn listing_without_update_authority_is_refused() {
    let (mut ctx, _) = list_ctx(initialized(500), CustodyStyle::Delegated);
    ctx.asset.update_authority = UpdateAuthority::Collection([5; 32]);
    let err = list_nft(&mut ctx, InitializeListingParams { price: 1000, token_id: 1 }).unwrap_err();
    assert_eq!(err, MarketplaceError::NotUpdateAuthority);
}

#[test]
fn listing_with_foreign_collection_is_refused() {
    let (mut ctx, _) = list_ctx(initialized(500), CustodyStyle::Delegated);
    ctx.collection = Some(Collection { key: [5; 32], update_authority: BUYER });
    let err = list_nft(&mut ctx, InitializeListingParams { price: 1000, token_id: 1 }).unwrap_err();
    assert_eq!(err, MarketplaceError::CollectionMismatch);
    let (mut ctx, _) = list_ctx(initialized(500), CustodyStyle::Delegated);
    ctx.collection = Some(Collection { key: [5; 32], update_authority: ADMIN });
    assert!(list_nft(&mut ctx, InitializeListingParams { price: 1000, token_id: 1 }).is_ok());
}

#[test]
fn listing_by_other_than_admin_is_refused() {
    let (mut ctx, _) = list_ctx(initialized(500), CustodyStyle::Delegated);
    ctx.seller.key = BUYER;
    ctx.asset.owner = BUYER;
    ctx.asset.update_authority = UpdateAuthority::Address(BUYER);
    let err = list_nft(&mut ctx, InitializeListingParams { price: 1000, token_id: 1 }).unwrap_err();
    assert_eq!(err, MarketplaceError::UnauthorizedCreator);
    assert!(ctx.listing.data.is_none());
}

#[test]
fn listing_by_any_owner_when_allowed() {
    let (mut ctx, _) = list_ctx(initialized(500), CustodyStyle::Direct);
    ctx.policy = ListingPolicy::AnyOwner;
    ctx.seller.key = BUYER;
    ctx.asset.owner = BUYER;
    ctx.asset.update_authority = UpdateAuthority::Address(BUYER);
    let effects = list_nft(&mut ctx, InitializeListingParams { price: 1000, token_id: 1 }).unwrap();
    assert_eq!(effects, vec![Effect::TransferAsset { authority: BUYER, new_owner: ctx.escrow }]);
    assert_eq!(ctx.listing.data.as_ref().unwrap().seller, BUYER);
}

#[test]
fn listing_on_wrong_marketplace_address_is_refused() {
    let (mut ctx, _) = list_ctx(initialized(500), CustodyStyle::Delegated);
    ctx.marketplace.key = [9; 32];
    let err = list_nft(&mut ctx, InitializeListingParams { price: 1000, token_id: 1 }).unwrap_err();
    assert_eq!(err, MarketplaceError::AddressMismatch);
}

#[test]
fn custody_step_requires_update_authority() {
    let (mut ctx, _) = list_ctx(initialized(500), CustodyStyle::Delegated);
    ctx.initialize_listing(InitializeListingParams { price: 1000, token_id: 1 }).unwrap();
    ctx.asset.update_authority = UpdateAuthority::Collection([5; 32]);
    assert_eq!(ctx.list_nft().unwrap_err(), MarketplaceError::NotUpdateAuthority);
    assert_eq!(ctx.asset.owner, ADMIN);
    assert_eq!(ctx.asset.transfer_delegate, None);
}

#[test]
fn custody_step_requires_matching_collection() {
    let (mut ctx, _) = list_ctx(initialized(500), CustodyStyle::Delegated);
    ctx.initialize_listing(InitializeListingParams { price: 1000, token_id: 1 }).unwrap();
    ctx.collection = Some(Collection { key: [5; 32], update_authority: BUYER });
    assert_eq!(ctx.list_nft().unwrap_err(), MarketplaceError::CollectionMismatch);
    assert_eq!(ctx.asset, fresh_asset());
}

#[test]
fn listing_on_missing_marketplace_is_refused() {
    let (mut ctx, _) = list_ctx(init_ctx(), CustodyStyle::Delegated);
    let err = list_nft(&mut ctx, InitializeListingParams { price: 1000, token_id: 1 }).unwrap_err();
    assert_eq!(err, MarketplaceError::AccountNotInitialized);
}

#[test]
fn listing_to_wrong_escrow_is_refused() {
    let (mut ctx, _) = list_ctx(initialized(500), CustodyStyle::Delegated);
    ctx.escrow = BUYER;
    let err = list_nft(&mut ctx, InitializeListingParams { price: 1000, token_id: 1 }).unwrap_err();
    assert_eq!(err, MarketplaceError::AddressMismatch);
    assert_eq!(ctx.asset, fresh_asset());
}

#[test]
fn custody_step_checks_the_record() {
    let (mut ctx, _) = list_ctx(initialized(500), CustodyStyle::Delegated);
    assert_eq!(ctx.list_nft().unwrap_err(), MarketplaceError::ListingNotActive);
    ctx.initialize_listing(InitializeListingParams { price: 1000, token_id: 1 }).unwrap();
    ctx.seller.key = BUYER;
    assert_eq!(ctx.list_nft().unwrap_err(), MarketplaceError::SellerMismatch);
    assert_eq!(ctx.asset, fresh_asset());
}

#[test]
fn purchase_end_to_end() {
    let (l, treasury) = listed(500, 1000, CustodyStyle::Delegated);
    let seller_before = l.seller.lamports;
    let treasury_before = treasury.lamports;
    let escrow = l.escrow;
    let mut ctx = purchase_ctx(l, treasury, 5000);
    let effects = purchase_nft(&mut ctx).unwrap();
    assert_eq!(
        effects,
        vec![
            Effect::Pay { from: BUYER, to: ctx.treasury.key, amount: 50 },
            Effect::Pay { from: BUYER, to: ADMIN, amount: 950 },
            Effect::TransferAsset { authority: escrow, new_owner: BUYER },
        ]
    );
    assert_eq!(ctx.treasury.lamports, treasury_before + 50);
    assert_eq!(ctx.seller.lamports, seller_before + 950);
    assert_eq!(ctx.buyer.lamports, 4000);
    assert_eq!(ctx.asset.owner, BUYER);
    assert_eq!(ctx.asset.transfer_delegate, None);
    assert!(ctx.listing.data.is_none());
}

#[test]
fn purchase_returns_listing_lamports_to_buyer() {
    let (mut l, treasury) = listed(500, 1000, CustodyStyle::Direct);
    l.listing.lamports = 300;
    let mut ctx = purchase_ctx(l, treasury, 1000);
    purchase_nft(&mut ctx).unwrap();
    assert_eq!(ctx.buyer.lamports, 300);
    assert_eq!(ctx.listing.lamports, 0);
}

#[test]
fn purchase_of_inactive_listing_is_refused() {
    let (mut l, treasury) = listed(500, 1000, CustodyStyle::Delegated);
    l.listing.data.as_mut().unwrap().is_active = false;
    let mut ctx = purchase_ctx(l, treasury, 5000);
    let treasury_before = ctx.treasury.lamports;
    let seller_before = ctx.seller.lamports;
    assert_eq!(purchase_nft(&mut ctx).unwrap_err(), MarketplaceError::ListingNotActive);
    assert_eq!(ctx.buyer.lamports, 5000);
    assert_eq!(ctx.treasury.lamports, treasury_before);
    assert_eq!(ctx.seller.lamports, seller_before);
    assert_eq!(ctx.asset.owner, ctx.escrow);
    assert!(ctx.listing.data.is_some());
}

#[test]
fn purchase_of_item_not_in_escrow_is_refused() {
    let (mut l, treasury) = listed(500, 1000, CustodyStyle::Delegated);
    l.asset.owner = ADMIN;
    let mut ctx = purchase_ctx(l, treasury, 5000);
    assert_eq!(purchase_nft(&mut ctx).unwrap_err(), MarketplaceError::AssetNotInEscrow);
    assert_eq!(ctx.buyer.lamports, 5000);
    assert_eq!(ctx.asset.owner, ADMIN);
}

#[test]
fn purchase_of_closed_listing_is_refused() {
    let (l, treasury) = listed(500, 1000, CustodyStyle::Delegated);
    let mut ctx = purchase_ctx(l, treasury, 5000);
    purchase_nft(&mut ctx).unwrap();
    ctx.buyer = SystemAccount { key: [4; 32], lamports: 5000 };
    assert_eq!(purchase_nft(&mut ctx).unwrap_err(), MarketplaceError::ListingNotActive);
    assert_eq!(ctx.buyer.lamports, 5000);
}

#[test]
fn purchase_with_wrong_seller_is_refused() {
    let (l, treasury) = listed(500, 1000, CustodyStyle::Delegated);
    let mut ctx = purchase_ctx(l, treasury, 5000);
    ctx.seller.key = [4; 32];
    assert_eq!(purchase_nft(&mut ctx).unwrap_err(), MarketplaceError::SellerMismatch);
}

#[test]
fn purchase_with_wrong_asset_is_refused() {
    let (l, treasury) = listed(500, 1000, CustodyStyle::Delegated);
    let mut ctx = purchase_ctx(l, treasury, 5000);
    ctx.asset.key = [4; 32];
    assert_eq!(purchase_nft(&mut ctx).unwrap_err(), MarketplaceError::AssetMismatch);
}

#[test]
fn purchase_with_wrong_treasury_is_refused() {
    let (l, treasury) = listed(500, 1000, CustodyStyle::Delegated);
    let mut ctx = purchase_ctx(l, treasury, 5000);
    ctx.treasury.key = [4; 32];
    assert_eq!(purchase_nft(&mut ctx).unwrap_err(), MarketplaceError::AddressMismatch);
    assert_eq!(ctx.buyer.lamports, 5000);
}

#[test]
fn seller_buying_own_item_is_refused() {
    let (l, treasury) = listed(500, 1000, CustodyStyle::Delegated);
    let mut ctx = purchase_ctx(l, treasury, 5000);
    ctx.buyer.key = ADMIN;
    assert_eq!(purchase_nft(&mut ctx).unwrap_err(), MarketplaceError::DuplicateAccount);
}

#[test]
fn purchase_without_funds_is_refused() {
    let (l, treasury) = listed(500, 1000, CustodyStyle::Delegated);
    let mut ctx = purchase_ctx(l, treasury, 999);
    assert_eq!(purchase_nft(&mut ctx).unwrap_err(), MarketplaceError::InsufficientFunds);
    assert_eq!(ctx.buyer.lamports, 999);
    assert_eq!(ctx.asset.owner, ctx.escrow);
}

#[test]
fn purchase_fee_overflow_is_refused() {
    let (l, treasury) = listed(500, u64::MAX, CustodyStyle::Delegated);
    let mut ctx = purchase_ctx(l, treasury, u64::MAX);
    assert_eq!(purchase_nft(&mut ctx).unwrap_err(), MarketplaceError::MathOverflowError);
    assert_eq!(ctx.buyer.lamports, u64::MAX);
}

#[test]
fn payment_and_release_steps() {
    let (l, treasury) = listed(500, 1000, CustodyStyle::Delegated);
    let mut ctx = purchase_ctx(l, treasury, 5000);
    let paid = ctx.make_payment().unwrap();
    assert_eq!(paid.len(), 2);
    assert_eq!(ctx.buyer.lamports, 4000);
    assert_eq!(ctx.asset.owner, ctx.escrow);
    let released = ctx.transfer_nft().unwrap();
    assert_eq!(released, vec![Effect::TransferAsset { authority: ctx.escrow, new_owner: BUYER }]);
    assert_eq!(ctx.asset.owner, BUYER);
    assert_eq!(ctx.transfer_nft().unwrap_err(), MarketplaceError::ListingNotActive);
}

#[test]
fn redeem_end_to_end() {
    let (l, treasury) = listed(500, 1000, CustodyStyle::Delegated);
    let seller_before = l.seller.lamports;
    let treasury_before = treasury.lamports;
    let mut ctx = redeem_ctx(l, treasury);
    let escrow = ctx.escrow;
    let effects = ctx.redeem_nft().unwrap();
    assert_eq!(
        effects,
        vec![
            Effect::Pay { from: ADMIN, to: ctx.treasury.key, amount: 25 },
            Effect::Thaw { authority: escrow },
            Effect::Burn { authority: escrow },
        ]
    );
    assert_eq!(ctx.treasury.lamports, treasury_before + 25);
    assert_eq!(ctx.owner.lamports, seller_before - 25);
    assert!(ctx.asset.burned);
    assert!(!ctx.asset.frozen);
    assert!(ctx.listing.data.is_none());
}

#[test]
fn redeem_direct_custody_only_burns() {
    let (l, treasury) = listed(500, 1000, CustodyStyle::Direct);
    let mut ctx = redeem_ctx(l, treasury);
    let effects = ctx.redeem_nft().unwrap();
    assert_eq!(effects.len(), 2);
    assert_eq!(effects[1], Effect::Burn { authority: ctx.escrow });
}

#[test]
fn redeem_by_other_than_seller_is_refused() {
    let (l, treasury) = listed(500, 1000, CustodyStyle::Delegated);
    let mut ctx = redeem_ctx(l, treasury);
    ctx.owner = SystemAccount { key: BUYER, lamports: 5000 };
    assert_eq!(ctx.redeem_nft().unwrap_err(), MarketplaceError::NotAssetOwner);
    assert_eq!(ctx.owner.lamports, 5000);
    assert!(!ctx.asset.burned);
}

#[test]
fn redeem_of_inactive_listing_is_refused() {
    let (mut l, treasury) = listed(500, 1000, CustodyStyle::Delegated);
    l.listing.data.as_mut().unwrap().is_active = false;
    let mut ctx = redeem_ctx(l, treasury);
    assert_eq!(ctx.redeem_nft().unwrap_err(), MarketplaceError::ListingNotActive);
}

#[test]
fn redeem_without_funds_is_refused() {
    let (l, treasury) = listed(500, 1000, CustodyStyle::Delegated);
    let mut ctx = redeem_ctx(l, treasury);
    ctx.owner.lamports = 24;
    assert_eq!(ctx.redeem_nft().unwrap_err(), MarketplaceError::InsufficientFunds);
    assert!(!ctx.asset.burned);
}

#[test]
fn create_nft_by_admin() {
    let init = initialized(500);
    let ctx = CreateNFT {
        program_id: PROGRAM,
        creator: ADMIN,
        asset: ITEM,
        collection: Some(Collection { key: [5; 32], update_authority: ADMIN }),
        marketplace: init.marketplace,
    };
    let params = CreateNFTParams { name: "Sword".to_string(), uri: "https://example.com/1".to_string() };
    let c = create_nft(&ctx, params).unwrap();
    assert_eq!(c.asset, ITEM);
    assert_eq!(c.owner, ADMIN);
    assert_eq!(c.update_authority, ADMIN);
    assert_eq!(c.collection, Some([5; 32]));
    assert_eq!(c.name, "Sword");
    assert_eq!(c.uri, "https://example.com/1");
}

#[test]
fn create_nft_refusals() {
    let init = initialized(500);
    let mut ctx = CreateNFT {
        program_id: PROGRAM,
        creator: ADMIN,
        asset: ITEM,
        collection: Some(Collection { key: [5; 32], update_authority: BUYER }),
        marketplace: init.marketplace,
    };
    let p = || CreateNFTParams { name: "n".to_string(), uri: "u".to_string() };
    assert_eq!(ctx.create_nft(p()).err(), Some(MarketplaceError::NotUpdateAuthority));
    ctx.collection = None;
    ctx.marketplace.data.as_mut().unwrap().admin = BUYER;
    assert_eq!(ctx.create_nft(p()).err(), Some(MarketplaceError::UnauthorizedCreator));
    ctx.marketplace.data = None;
    assert_eq!(ctx.create_nft(p()).err(), Some(MarketplaceError::AccountNotInitialized));
}

#[test]
fn modify_nft_by_update_authority() {
    let ctx = UpdateNFTMetadata { authority: ADMIN, asset: fresh_asset() };
    let u = modify_nft(&ctx, UpdateNFTParams { name: Some("New".to_string()), uri: None }).unwrap();
    assert_eq!(u.asset, ITEM);
    assert_eq!(u.authority, ADMIN);
    assert_eq!(u.new_name, "New");
    assert_eq!(u.new_uri, "");
    let other = UpdateNFTMetadata { authority: BUYER, asset: fresh_asset() };
    let err = other.update_metadata(UpdateNFTParams { name: None, uri: None }).err();
    assert_eq!(err, Some(MarketplaceError::NotUpdateAuthority));
}

#[test]
fn release_step_checks_accounts() {
    let (l, treasury) = listed(500, 1000, CustodyStyle::Delegated);
    let mut ctx = purchase_ctx(l, treasury, 5000);
    ctx.seller.key = [4; 32];
    assert_eq!(ctx.transfer_nft().unwrap_err(), MarketplaceError::SellerMismatch);
    ctx.seller.key = ADMIN;
    ctx.treasury.key = [4; 32];
    assert_eq!(ctx.transfer_nft().unwrap_err(), MarketplaceError::AddressMismatch);
    assert_eq!(ctx.asset.owner, ctx.escrow);
    assert!(ctx.listing.data.is_some());
}

#[test]
fn full_rate_purchase_pays_treasury_everything() {
    let (l, treasury) = listed(10000, 1000, CustodyStyle::Direct);
    let seller_before = l.seller.lamports;
    let treasury_before = treasury.lamports;
    let mut ctx = purchase_ctx(l, treasury, 1000);
    purchase_nft(&mut ctx).unwrap();
    assert_eq!(ctx.treasury.lamports, treasury_before + 1000);
    assert_eq!(ctx.seller.lamports, seller_before);
    assert_eq!(ctx.buyer.lamports, 0);
}

#[test]
fn error_messages() {
    assert_eq!(MarketplaceError::DuplicateAccount.message(), "An account was given in two roles");
    assert_eq!(MarketplaceError::UndefinedName.message(), "Name cannot be undefined");
    assert_eq!(MarketplaceError::ListingNotActive.message(), "Asset Listing is not active");
}

#[test]
fn listing_record_fields() {
    let l = Listing { seller: ADMIN, mint: ITEM, price: 42, bump: 1, escrow_bump: 2, token_id: 3, is_active: true };
    assert_eq!(l.get_price_by_token_id(), 42);
}
