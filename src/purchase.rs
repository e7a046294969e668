use vstd::prelude::*;
use crate::address::{
    check_derived, derive_escrow_address, derives_to, derive_listing_address, derive_marketplace_address,
    derive_treasury_address, escrow_address, is_derived, listing_address, marketplace_address,
    same_address, treasury_address, Address,
};
use crate::error::MarketplaceError;
use crate::fees::{fee_of, lemma_split_adds_up, payment_split, split_fits, split_payment};
use crate::state::{Asset, Effect, ListingAccount, MarketplaceAccount, SystemAccount};

verus! {

/// The item once released to `buyer`: the buyer owns it and no capability
/// granted for the listing remains.
pub open spec fn released(asset: Asset, buyer: Address) -> Asset {
    Asset {
        owner: buyer,
        transfer_delegate: None,
        burn_delegate: None,
        freeze_delegate: None,
        ..asset
    }
}

/// The accounts that buying a listed item touches.
pub struct Purchase {
    /// The marketplace program's own id, under which addresses are derived.
    pub program_id: Address,
    /// The buyer, who pays the price.
    pub buyer: SystemAccount,
    /// The seller, who receives the price less the fee.
    pub seller: SystemAccount,
    /// The listed item.
    pub asset: Asset,
    /// The escrow that holds the item.
    pub escrow: Address,
    /// The listing of the item.
    pub listing: ListingAccount,
    /// The marketplace the item is listed on.
    pub marketplace: MarketplaceAccount,
    /// The marketplace's treasury, which receives the fee.
    pub treasury: SystemAccount,
}

impl Purchase {
    /// The outcome of the checks that a purchase makes, in order: the fee
    /// and the seller's share, or the first error.
    pub open spec fn check(&self) -> Result<(u64, u64), MarketplaceError> {
        let l = self.listing.data.unwrap();
        let m = self.marketplace.data.unwrap();
        let split = payment_split(l.price, m.fee_bps);
        if self.listing.data is None {
            Err(MarketplaceError::ListingNotActive)
        } else if l.seller@ != self.seller.key@ {
            Err(MarketplaceError::SellerMismatch)
        } else if l.mint@ != self.asset.key@ {
            Err(MarketplaceError::AssetMismatch)
        } else if !is_derived(self.escrow, l.escrow_bump, escrow_address(self.program_id@, self.listing.key@)) {
            Err(MarketplaceError::AddressMismatch)
        } else if self.asset.owner@ != self.escrow@ {
            Err(MarketplaceError::AssetNotInEscrow)
        } else if !l.is_active {
            Err(MarketplaceError::ListingNotActive)
        } else if self.marketplace.data is None {
            Err(MarketplaceError::AccountNotInitialized)
        } else if !is_derived(self.listing.key, l.bump, listing_address(self.program_id@, self.marketplace.key@, self.asset.key@))
            || !is_derived(self.marketplace.key, m.bump, marketplace_address(self.program_id@, m.admin@))
            || !is_derived(self.treasury.key, m.treasury_bump, treasury_address(self.program_id@, self.marketplace.key@)) {
            Err(MarketplaceError::AddressMismatch)
        } else if self.buyer.key@ == self.seller.key@ || self.buyer.key@ == self.treasury.key@
            || self.seller.key@ == self.treasury.key@ {
            Err(MarketplaceError::DuplicateAccount)
        } else if split is Err {
            Err(MarketplaceError::MathOverflowError)
        } else if self.buyer.lamports < l.price {
            Err(MarketplaceError::InsufficientFunds)
        } else if self.treasury.lamports + split.unwrap().0 > u64::MAX
            || self.seller.lamports + split.unwrap().1 > u64::MAX
            || self.buyer.lamports - l.price + self.listing.lamports > u64::MAX {
            Err(MarketplaceError::MathOverflowError)
        } else {
            split
        }
    }

    /// The accounts after the buyer has paid `fee` to the treasury and
    /// `seller_amount` to the seller.
    pub open spec fn paid(&self, fee: u64, seller_amount: u64) -> Purchase {
        Purchase {
            buyer: SystemAccount { lamports: (self.buyer.lamports - fee - seller_amount) as u64, ..self.buyer },
            treasury: SystemAccount { lamports: (self.treasury.lamports + fee) as u64, ..self.treasury },
            seller: SystemAccount { lamports: (self.seller.lamports + seller_amount) as u64, ..self.seller },
            ..*self
        }
    }

    /// The payments of a purchase, in order.
    pub open spec fn payment_effects(&self, fee: u64, seller_amount: u64) -> Seq<Effect> {
        seq![
            Effect::Pay { from: self.buyer.key, to: self.treasury.key, amount: fee },
            Effect::Pay { from: self.buyer.key, to: self.seller.key, amount: seller_amount },
        ]
    }

    /// Checks the purchase and has the buyer pay the fee to the treasury and
    /// the rest of the price to the seller. On any error nothing changes.
    pub fn make_payment(&mut self) -> (r: Result<Vec<Effect>, MarketplaceError>)
        ensures
            match old(self).check() {
                Ok((fee, seller_amount)) => {
                    &&& r matches Ok(effects) && effects@ == old(self).payment_effects(fee, seller_amount)
                    &&& *final(self) == old(self).paid(fee, seller_amount)
                },
                Err(e) => r == Err::<Vec<Effect>, MarketplaceError>(e) && *final(self) == *old(self),
            },
    {
        let (seller, mint, price, bump, escrow_bump, is_active) = match &self.listing.data {
            Some(l) => (l.seller, l.mint, l.get_price_by_token_id(), l.bump, l.escrow_bump, l.is_active),
            None => return Err(MarketplaceError::ListingNotActive),
        };
        if !same_address(&seller, &self.seller.key) {
            return Err(MarketplaceError::SellerMismatch);
        }
        if !same_address(&mint, &self.asset.key) {
            return Err(MarketplaceError::AssetMismatch);
        }
        if !check_derived(&self.escrow, escrow_bump, derive_escrow_address(&self.program_id, &self.listing.key)) {
            return Err(MarketplaceError::AddressMismatch);
        }
        if !same_address(&self.asset.owner, &self.escrow) {
            return Err(MarketplaceError::AssetNotInEscrow);
        }
        if !is_active {
            return Err(MarketplaceError::ListingNotActive);
        }
        let (admin, fee_bps, marketplace_bump, treasury_bump) = match &self.marketplace.data {
            Some(m) => (m.admin, m.fee_bps, m.bump, m.treasury_bump),
            None => return Err(MarketplaceError::AccountNotInitialized),
        };
        if !check_derived(&self.listing.key, bump, derive_listing_address(&self.program_id, &self.marketplace.key, &self.asset.key))
            || !check_derived(&self.marketplace.key, marketplace_bump, derive_marketplace_address(&self.program_id, &admin))
            || !check_derived(&self.treasury.key, treasury_bump, derive_treasury_address(&self.program_id, &self.marketplace.key)) {
            return Err(MarketplaceError::AddressMismatch);
        }
        if same_address(&self.buyer.key, &self.seller.key) || same_address(&self.buyer.key, &self.treasury.key)
            || same_address(&self.seller.key, &self.treasury.key) {
            return Err(MarketplaceError::DuplicateAccount);
        }
        let (fee, seller_amount) = match split_payment(price, fee_bps) {
            Ok(s) => s,
            Err(_) => return Err(MarketplaceError::MathOverflowError),
        };
        if self.buyer.lamports < price {
            return Err(MarketplaceError::InsufficientFunds);
        }
        if self.treasury.lamports > u64::MAX - fee || self.seller.lamports > u64::MAX - seller_amount
            || self.buyer.lamports - price > u64::MAX - self.listing.lamports {
            return Err(MarketplaceError::MathOverflowError);
        }
        self.buyer.lamports = self.buyer.lamports - fee;
        self.treasury.lamports = self.treasury.lamports + fee;
        self.buyer.lamports = self.buyer.lamports - seller_amount;
        self.seller.lamports = self.seller.lamports + seller_amount;
        let mut effects: Vec<Effect> = Vec::new();
        effects.push(Effect::Pay { from: self.buyer.key, to: self.treasury.key, amount: fee });
        effects.push(Effect::Pay { from: self.buyer.key, to: self.seller.key, amount: seller_amount });
        proof {
            assert(effects@ =~= old(self).payment_effects(fee, seller_amount));
        }
        Ok(effects)
    }

    /// The outcome of the checks made before the item is released.
    pub open spec fn release_check(&self) -> Result<(), MarketplaceError> {
        let l = self.listing.data.unwrap();
        let m = self.marketplace.data.unwrap();
        if !(self.listing.data matches Some(l) && l.is_active) {
            Err(MarketplaceError::ListingNotActive)
        } else if l.seller@ != self.seller.key@ {
            Err(MarketplaceError::SellerMismatch)
        } else if self.marketplace.data is None {
            Err(MarketplaceError::AccountNotInitialized)
        } else if !is_derived(self.listing.key, l.bump, listing_address(self.program_id@, self.marketplace.key@, self.asset.key@))
            || !is_derived(self.marketplace.key, m.bump, marketplace_address(self.program_id@, m.admin@))
            || !is_derived(self.treasury.key, m.treasury_bump, treasury_address(self.program_id@, self.marketplace.key@)) {
            Err(MarketplaceError::AddressMismatch)
        } else if l.mint@ != self.asset.key@ {
            Err(MarketplaceError::AssetMismatch)
        } else if !is_derived(self.escrow, l.escrow_bump, escrow_address(self.program_id@, self.listing.key@)) {
            Err(MarketplaceError::AddressMismatch)
        } else if self.asset.owner@ != self.escrow@ {
            Err(MarketplaceError::AssetNotInEscrow)
        } else if self.buyer.lamports + self.listing.lamports > u64::MAX {
            Err(MarketplaceError::MathOverflowError)
        } else {
            Ok(())
        }
    }

    /// The accounts after the item has gone to the buyer and the listing is
    /// closed, its lamports going to the buyer.
    pub open spec fn released(&self) -> Purchase {
        Purchase {
            buyer: SystemAccount { lamports: (self.buyer.lamports + self.listing.lamports) as u64, ..self.buyer },
            asset: released(self.asset, self.buyer.key),
            listing: ListingAccount { key: self.listing.key, lamports: 0, data: None },
            ..*self
        }
    }

    /// Has the escrow transfer the item to the buyer and closes the listing.
    /// On any error nothing changes.
    ///
    /// This is the release step of a purchase only: it takes no payment.
    /// `purchase_nft` runs it after `make_payment`, so that a buyer never
    /// receives the item without paying.
    pub fn transfer_nft(&mut self) -> (r: Result<Vec<Effect>, MarketplaceError>)
        ensures
            match old(self).release_check() {
                Ok(()) => {
                    &&& r matches Ok(effects) && effects@ == seq![
                        Effect::TransferAsset { authority: old(self).escrow, new_owner: old(self).buyer.key },
                    ]
                    &&& *final(self) == old(self).released()
                },
                Err(e) => r == Err::<Vec<Effect>, MarketplaceError>(e) && *final(self) == *old(self),
            },
    {
        let (seller, mint, bump, escrow_bump) = match &self.listing.data {
            Some(l) => {
                if !l.is_active {
                    return Err(MarketplaceError::ListingNotActive);
                }
                (l.seller, l.mint, l.bump, l.escrow_bump)
            },
            None => return Err(MarketplaceError::ListingNotActive),
        };
        if !same_address(&seller, &self.seller.key) {
            return Err(MarketplaceError::SellerMismatch);
        }
        let (admin, marketplace_bump, treasury_bump) = match &self.marketplace.data {
            Some(m) => (m.admin, m.bump, m.treasury_bump),
            None => return Err(MarketplaceError::AccountNotInitialized),
        };
        if !check_derived(&self.listing.key, bump, derive_listing_address(&self.program_id, &self.marketplace.key, &self.asset.key))
            || !check_derived(&self.marketplace.key, marketplace_bump, derive_marketplace_address(&self.program_id, &admin))
            || !check_derived(&self.treasury.key, treasury_bump, derive_treasury_address(&self.program_id, &self.marketplace.key)) {
            return Err(MarketplaceError::AddressMismatch);
        }
        if !same_address(&mint, &self.asset.key) {
            return Err(MarketplaceError::AssetMismatch);
        }
        if !check_derived(&self.escrow, escrow_bump, derive_escrow_address(&self.program_id, &self.listing.key)) {
            return Err(MarketplaceError::AddressMismatch);
        }
        if !same_address(&self.asset.owner, &self.escrow) {
            return Err(MarketplaceError::AssetNotInEscrow);
        }
        if self.buyer.lamports > u64::MAX - self.listing.lamports {
            return Err(MarketplaceError::MathOverflowError);
        }
        self.asset.owner = self.buyer.key;
        self.asset.transfer_delegate = None;
        self.asset.burn_delegate = None;
        self.asset.freeze_delegate = None;
        self.buyer.lamports = self.buyer.lamports + self.listing.lamports;
        self.listing.lamports = 0;
        self.listing.data = None;
        let mut effects: Vec<Effect> = Vec::new();
        effects.push(Effect::TransferAsset { authority: self.escrow, new_owner: self.buyer.key });
        proof {
            assert(effects@ =~= seq![Effect::TransferAsset { authority: old(self).escrow, new_owner: old(self).buyer.key }]);
        }
        Ok(effects)
    }
}

/// Whether the item is held by the escrow derived from the listing's
/// address.
pub open spec fn escrow_holds(p: Purchase) -> bool {
    derives_to(escrow_address(p.program_id@, p.listing.key@), p.asset.owner)
}

/// A purchase of an inactive listing, or of an item that the listing's
/// escrow does not hold, is refused; the contract of `purchase_nft` then
/// leaves every balance and the item's custody unchanged.
pub proof fn lemma_purchase_needs_escrowed_active_listing(p: Purchase)
    requires
        p.listing.data matches Some(l) && (!l.is_active || !escrow_holds(p)),
    ensures
        p.check() is Err,
{
}

impl Purchase {
    /// Whether every account is the one that the listing and the marketplace
    /// record or derive, the item is in escrow, the listing is active, and
    /// buyer, seller and treasury are distinct accounts.
    pub open spec fn accounts_valid(&self) -> bool {
        let l = self.listing.data.unwrap();
        let m = self.marketplace.data.unwrap();
        &&& self.listing.data is Some
        &&& self.marketplace.data is Some
        &&& l.is_active
        &&& l.seller@ == self.seller.key@
        &&& l.mint@ == self.asset.key@
        &&& is_derived(self.escrow, l.escrow_bump, escrow_address(self.program_id@, self.listing.key@))
        &&& self.asset.owner@ == self.escrow@
        &&& is_derived(self.listing.key, l.bump, listing_address(self.program_id@, self.marketplace.key@, self.asset.key@))
        &&& is_derived(self.marketplace.key, m.bump, marketplace_address(self.program_id@, m.admin@))
        &&& is_derived(self.treasury.key, m.treasury_bump, treasury_address(self.program_id@, self.marketplace.key@))
        &&& self.buyer.key@ != self.seller.key@
        &&& self.buyer.key@ != self.treasury.key@
        &&& self.seller.key@ != self.treasury.key@
    }
}

/// A purchase of a listed item whose accounts are valid, at a rate of at
/// most 100% whose product with the price fits in `u64`, by a buyer who can
/// pay the price, with no balance leaving `u64`, succeeds. The treasury
/// then gains the fee, the price times the rate over 10000 rounded down; the
/// seller gains the rest; the two add up to the price, which the buyer pays;
/// the buyer owns the item and the listing is closed. At a rate of 100% the
/// treasury gains the whole price and the seller nothing.
pub proof fn lemma_purchase_settles(p: Purchase)
    requires
        p.accounts_valid(),
        p.marketplace.data.unwrap().fee_bps <= 10000,
        split_fits(p.listing.data.unwrap().price, p.marketplace.data.unwrap().fee_bps),
        p.buyer.lamports >= p.listing.data.unwrap().price,
        p.treasury.lamports + p.listing.data.unwrap().price <= u64::MAX,
        p.seller.lamports + p.listing.data.unwrap().price <= u64::MAX,
        p.buyer.lamports - p.listing.data.unwrap().price + p.listing.lamports <= u64::MAX,
    ensures
        ({
            let price = p.listing.data.unwrap().price;
            let fee = fee_of(price as int, p.marketplace.data.unwrap().fee_bps as int);
            let after = p.paid(fee as u64, (price - fee) as u64).released();
            &&& p.check() == Ok::<(u64, u64), MarketplaceError>((fee as u64, (price - fee) as u64))
            &&& after.treasury.lamports == p.treasury.lamports + fee
            &&& after.seller.lamports == p.seller.lamports + (price - fee)
            &&& (after.treasury.lamports - p.treasury.lamports) + (after.seller.lamports - p.seller.lamports) == price
            &&& after.buyer.lamports == p.buyer.lamports - price + p.listing.lamports
            &&& after.asset.owner == p.buyer.key
            &&& after.listing.data is None
            &&& p.marketplace.data.unwrap().fee_bps == 10000 ==> {
                &&& after.treasury.lamports == p.treasury.lamports + price
                &&& after.seller.lamports == p.seller.lamports
            }
        }),
{
    let price = p.listing.data.unwrap().price;
    let bps = p.marketplace.data.unwrap().fee_bps;
    lemma_split_adds_up(price, bps);
    assert(fee_of(price as int, bps as int) <= price);
    if bps == 10000 {
        assert((price * 10000) / 10000 == price) by (nonlinear_arith);
    }
}

} // verus!
