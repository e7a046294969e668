use vstd::prelude::*;
use crate::address::{
    check_derived, derive_escrow_address, derive_listing_address, derive_marketplace_address,
    derive_treasury_address, escrow_address, is_derived, listing_address, marketplace_address,
    same_address, treasury_address, Address,
};
use crate::error::MarketplaceError;
use crate::fees::{fee_of, redeem_fee, redemption_fee, split_fits};
use crate::state::{Asset, Effect, ListingAccount, MarketplaceAccount, SystemAccount};

verus! {

/// Whether the escrow holds the item's freeze capability, so that it must
/// unfreeze the item before destroying it.
pub open spec fn must_thaw(asset: Asset, escrow: Address) -> bool {
    asset.freeze_delegate matches Some(f) && f@ == escrow@
}

/// The item once destroyed.
pub open spec fn destroyed(asset: Asset) -> Asset {
    Asset { frozen: false, burned: true, ..asset }
}

/// The accounts that redeeming a listed item touches.
pub struct RedeemNFT {
    /// The marketplace program's own id, under which addresses are derived.
    pub program_id: Address,
    /// The seller of record, who pays half the fee.
    pub owner: SystemAccount,
    /// The listed item.
    pub asset: Asset,
    /// The marketplace the item is listed on.
    pub marketplace: MarketplaceAccount,
    /// The marketplace's treasury, which receives the fee.
    pub treasury: SystemAccount,
    /// The listing of the item.
    pub listing: ListingAccount,
    /// The escrow that holds the item.
    pub escrow: Address,
}

impl RedeemNFT {
    /// The outcome of the checks that a redemption makes, in order: the fee
    /// to pay, or the first error.
    pub open spec fn check(&self) -> Result<u64, MarketplaceError> {
        let l = self.listing.data.unwrap();
        let m = self.marketplace.data.unwrap();
        let fee = redemption_fee(l.price, m.fee_bps);
        if self.listing.data is None {
            Err(MarketplaceError::ListingNotActive)
        } else if l.mint@ != self.asset.key@ {
            Err(MarketplaceError::AssetMismatch)
        } else if self.marketplace.data is None {
            Err(MarketplaceError::AccountNotInitialized)
        } else if !is_derived(self.marketplace.key, m.bump, marketplace_address(self.program_id@, m.admin@))
            || !is_derived(self.treasury.key, m.treasury_bump, treasury_address(self.program_id@, self.marketplace.key@))
            || !is_derived(self.listing.key, l.bump, listing_address(self.program_id@, self.marketplace.key@, self.asset.key@)) {
            Err(MarketplaceError::AddressMismatch)
        } else if !l.is_active {
            Err(MarketplaceError::ListingNotActive)
        } else if self.owner.key@ != l.seller@ {
            Err(MarketplaceError::NotAssetOwner)
        } else if !is_derived(self.escrow, l.escrow_bump, escrow_address(self.program_id@, self.listing.key@)) {
            Err(MarketplaceError::AddressMismatch)
        } else if self.asset.owner@ != self.escrow@ {
            Err(MarketplaceError::AssetNotInEscrow)
        } else if self.owner.key@ == self.treasury.key@ {
            Err(MarketplaceError::DuplicateAccount)
        } else if fee is Err {
            Err(MarketplaceError::MathOverflowError)
        } else if self.owner.lamports < fee.unwrap() {
            Err(MarketplaceError::InsufficientFunds)
        } else if self.treasury.lamports + fee.unwrap() > u64::MAX
            || self.owner.lamports - fee.unwrap() + self.listing.lamports > u64::MAX {
            Err(MarketplaceError::MathOverflowError)
        } else {
            fee
        }
    }

    /// The accounts after the owner has paid `fee`, the item is destroyed,
    /// and the listing is closed, its lamports going to the owner.
    pub open spec fn redeemed(&self, fee: u64) -> RedeemNFT {
        RedeemNFT {
            owner: SystemAccount {
                lamports: (self.owner.lamports - fee + self.listing.lamports) as u64,
                ..self.owner
            },
            treasury: SystemAccount { lamports: (self.treasury.lamports + fee) as u64, ..self.treasury },
            asset: destroyed(self.asset),
            listing: ListingAccount { key: self.listing.key, lamports: 0, data: None },
            ..*self
        }
    }

    /// The requests of a redemption that pays `fee`, in order.
    pub open spec fn redeem_effects(&self, fee: u64) -> Seq<Effect> {
        let pay = Effect::Pay { from: self.owner.key, to: self.treasury.key, amount: fee };
        let burn = Effect::Burn { authority: self.escrow };
        if must_thaw(self.asset, self.escrow) {
            seq![pay, Effect::Thaw { authority: self.escrow }, burn]
        } else {
            seq![pay, burn]
        }
    }

    /// Lets the seller of record take a listed item back for half the fee:
    /// pays it to the treasury, has the escrow destroy the item, and closes
    /// the listing. On any error nothing changes.
    pub fn redeem_nft(&mut self) -> (r: Result<Vec<Effect>, MarketplaceError>)
        ensures
            match old(self).check() {
                Ok(fee) => {
                    &&& r matches Ok(effects) && effects@ == old(self).redeem_effects(fee)
                    &&& *final(self) == old(self).redeemed(fee)
                },
                Err(e) => r == Err::<Vec<Effect>, MarketplaceError>(e) && *final(self) == *old(self),
            },
    {
        let (seller, mint, price, bump, escrow_bump, is_active) = match &self.listing.data {
            Some(l) => (l.seller, l.mint, l.get_price_by_token_id(), l.bump, l.escrow_bump, l.is_active),
            None => return Err(MarketplaceError::ListingNotActive),
        };
        if !same_address(&mint, &self.asset.key) {
            return Err(MarketplaceError::AssetMismatch);
        }
        let (admin, fee_bps, marketplace_bump, treasury_bump) = match &self.marketplace.data {
            Some(m) => (m.admin, m.fee_bps, m.bump, m.treasury_bump),
            None => return Err(MarketplaceError::AccountNotInitialized),
        };
        if !check_derived(&self.marketplace.key, marketplace_bump, derive_marketplace_address(&self.program_id, &admin))
            || !check_derived(&self.treasury.key, treasury_bump, derive_treasury_address(&self.program_id, &self.marketplace.key))
            || !check_derived(&self.listing.key, bump, derive_listing_address(&self.program_id, &self.marketplace.key, &self.asset.key)) {
            return Err(MarketplaceError::AddressMismatch);
        }
        if !is_active {
            return Err(MarketplaceError::ListingNotActive);
        }
        if !same_address(&self.owner.key, &seller) {
            return Err(MarketplaceError::NotAssetOwner);
        }
        if !check_derived(&self.escrow, escrow_bump, derive_escrow_address(&self.program_id, &self.listing.key)) {
            return Err(MarketplaceError::AddressMismatch);
        }
        if !same_address(&self.asset.owner, &self.escrow) {
            return Err(MarketplaceError::AssetNotInEscrow);
        }
        if same_address(&self.owner.key, &self.treasury.key) {
            return Err(MarketplaceError::DuplicateAccount);
        }
        let fee = match redeem_fee(price, fee_bps) {
            Ok(f) => f,
            Err(_) => return Err(MarketplaceError::MathOverflowError),
        };
        if self.owner.lamports < fee {
            return Err(MarketplaceError::InsufficientFunds);
        }
        if self.treasury.lamports > u64::MAX - fee || self.owner.lamports - fee > u64::MAX - self.listing.lamports {
            return Err(MarketplaceError::MathOverflowError);
        }
        let thaw = match &self.asset.freeze_delegate {
            Some(f) => same_address(f, &self.escrow),
            None => false,
        };
        let mut effects: Vec<Effect> = Vec::new();
        effects.push(Effect::Pay { from: self.owner.key, to: self.treasury.key, amount: fee });
        if thaw {
            effects.push(Effect::Thaw { authority: self.escrow });
        }
        effects.push(Effect::Burn { authority: self.escrow });
        self.owner.lamports = self.owner.lamports - fee;
        self.treasury.lamports = self.treasury.lamports + fee;
        self.owner.lamports = self.owner.lamports + self.listing.lamports;
        self.listing.lamports = 0;
        self.listing.data = None;
        self.asset.frozen = false;
        self.asset.burned = true;
        proof {
            assert(effects@ =~= old(self).redeem_effects(fee));
        }
        Ok(effects)
    }
}

impl RedeemNFT {
    /// Whether every account is the one that the listing and the marketplace
    /// record or derive, the item is in escrow, the listing is active, the
    /// caller is its seller of record, and caller and treasury are distinct.
    pub open spec fn accounts_valid(&self) -> bool {
        let l = self.listing.data.unwrap();
        let m = self.marketplace.data.unwrap();
        &&& self.listing.data is Some
        &&& self.marketplace.data is Some
        &&& l.is_active
        &&& l.seller@ == self.owner.key@
        &&& l.mint@ == self.asset.key@
        &&& is_derived(self.escrow, l.escrow_bump, escrow_address(self.program_id@, self.listing.key@))
        &&& self.asset.owner@ == self.escrow@
        &&& is_derived(self.listing.key, l.bump, listing_address(self.program_id@, self.marketplace.key@, self.asset.key@))
        &&& is_derived(self.marketplace.key, m.bump, marketplace_address(self.program_id@, m.admin@))
        &&& is_derived(self.treasury.key, m.treasury_bump, treasury_address(self.program_id@, self.marketplace.key@))
        &&& self.owner.key@ != self.treasury.key@
    }
}

/// A redemption of a listed item whose accounts are valid, with a price and
/// rate whose product fits in `u64`, by a seller who can pay half the fee,
/// with no balance leaving `u64`, succeeds. The treasury then gains half the
/// purchase fee, rounded down, which the seller pays and nobody else
/// receives; the item is destroyed and the listing is closed, its lamports
/// going to the seller.
pub proof fn lemma_redeem_settles(r: RedeemNFT)
    requires
        r.accounts_valid(),
        split_fits(r.listing.data.unwrap().price, r.marketplace.data.unwrap().fee_bps),
        r.owner.lamports >= fee_of(r.listing.data.unwrap().price as int, r.marketplace.data.unwrap().fee_bps as int) / 2,
        r.treasury.lamports + fee_of(r.listing.data.unwrap().price as int, r.marketplace.data.unwrap().fee_bps as int) / 2 <= u64::MAX,
        r.owner.lamports + r.listing.lamports <= u64::MAX,
    ensures
        ({
            let half = fee_of(r.listing.data.unwrap().price as int, r.marketplace.data.unwrap().fee_bps as int) / 2;
            let after = r.redeemed(half as u64);
            &&& r.check() == Ok::<u64, MarketplaceError>(half as u64)
            &&& after.treasury.lamports == r.treasury.lamports + half
            &&& after.owner.lamports == r.owner.lamports - half + r.listing.lamports
            &&& after.asset.burned
            &&& after.listing.data is None
        }),
{
    let price = r.listing.data.unwrap().price;
    let bps = r.marketplace.data.unwrap().fee_bps;
    assert(0 <= price * bps) by (nonlinear_arith);
}

} // verus!
