use vstd::prelude::*;
use crate::address::Address;

verus! {

/// One marketplace's configuration, kept at the address derived from its
/// admin.
pub struct Marketplace {
    pub admin: Address,
    pub name: String,
    pub fee_bps: u16,
    pub bump: u8,
    pub treasury_bump: u8,
}

/// An item offered for sale on a marketplace, kept at the address derived
/// from the marketplace and the item.
pub struct Listing {
    pub seller: Address,
    pub mint: Address,
    pub price: u64,
    pub bump: u8,
    pub escrow_bump: u8,
    pub token_id: u16,
    pub is_active: bool,
}

impl Listing {
    /// The price of the listed item. Pricing by token kind is an extension
    /// point: for now every token is sold at the stored price.
    pub fn get_price_by_token_id(&self) -> (r: u64)
        ensures
            r == self.price,
    {
        self.price
    }
}

/// An account that holds only lamports.
#[derive(Clone, Copy, Debug, PartialEq, Eq)]
pub struct SystemAccount {
    pub key: Address,
    pub lamports: u64,
}

/// Who may update an item.
#[derive(Clone, Copy, Debug, PartialEq, Eq)]
pub enum UpdateAuthority {
    /// Nobody may update the item.
    Unset,
    Address(Address),
    Collection(Address),
}

/// A unique item as its managing program keeps it: its owner, its update
/// authority, and the holders of its transfer, burn and freeze capabilities.
#[derive(Clone, Copy, Debug, PartialEq, Eq)]
pub struct Asset {
    pub key: Address,
    pub owner: Address,
    pub update_authority: UpdateAuthority,
    pub transfer_delegate: Option<Address>,
    pub burn_delegate: Option<Address>,
    pub freeze_delegate: Option<Address>,
    pub frozen: bool,
    pub burned: bool,
}

/// A collection of items, as far as listing checks it.
#[derive(Clone, Copy, Debug, PartialEq, Eq)]
pub struct Collection {
    pub key: Address,
    pub update_authority: Address,
}

/// The account at a marketplace's address and the record it holds, if any.
pub struct MarketplaceAccount {
    pub key: Address,
    pub data: Option<Marketplace>,
}

/// The account at a listing's address, its lamports, and the record it
/// holds, if any.
pub struct ListingAccount {
    pub key: Address,
    pub lamports: u64,
    pub data: Option<Listing>,
}

/// How a listed item is held in escrow.
#[derive(Clone, Copy, Debug, PartialEq, Eq, Structural)]
pub enum CustodyStyle {
    /// Ownership passes straight to the escrow.
    Direct,
    /// The escrow first receives the transfer, burn and freeze capabilities,
    /// then ownership.
    Delegated,
}

/// Who may list items on a marketplace.
#[derive(Clone, Copy, Debug, PartialEq, Eq, Structural)]
pub enum ListingPolicy {
    /// Only the marketplace's admin may list.
    AdminOnly,
    /// Any owner and update authority of an item may list it.
    AnyOwner,
}

/// A capability that an item's owner can grant to another authority.
#[derive(Clone, Copy, Debug, PartialEq, Eq, Structural)]
pub enum PluginKind {
    TransferDelegate,
    BurnDelegate,
    FreezeDelegate,
}

/// A request that an operation hands to the system program or to the
/// item-managing program, in the order given.
#[derive(Clone, Copy, Debug, PartialEq, Eq)]
pub enum Effect {
    /// Move `amount` lamports from `from` to `to`.
    Pay { from: Address, to: Address, amount: u64 },
    /// The owner adds the capability `kind` to the item.
    AddPlugin { kind: PluginKind },
    /// The owner hands the capability `kind` to `new_authority`.
    ApprovePluginAuthority { kind: PluginKind, new_authority: Address },
    /// `authority` transfers the item to `new_owner`.
    TransferAsset { authority: Address, new_owner: Address },
    /// `authority` unfreezes the item.
    Thaw { authority: Address },
    /// `authority` destroys the item.
    Burn { authority: Address },
}

} // verus!
