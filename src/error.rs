use vstd::prelude::*;

verus! {

/// Every way an operation of the marketplace can be refused.
#[derive(Debug, Clone, Copy, PartialEq, Eq, Structural)]
pub enum MarketplaceError {
    /// The marketplace name is empty.
    UndefinedName,
    /// The marketplace name is longer than 32 bytes.
    NameTooLong,
    /// A fee or balance computation left the range of `u64`.
    MathOverflowError,
    /// The fee rate is above 10000 basis points.
    InvalidFeeBps,
    /// The seller does not own the asset.
    NotAssetOwner,
    /// The seller is not the update authority of the asset.
    NotUpdateAuthority,
    /// The asset's update authority is not the given collection's.
    CollectionMismatch,
    /// The seller account is not the one the listing records.
    SellerMismatch,
    /// The asset account is not the one the listing records.
    AssetMismatch,
    /// The asset is not held by the listing's escrow.
    AssetNotInEscrow,
    /// The listing does not exist or is not active.
    ListingNotActive,
    /// The lister is not the marketplace's admin.
    UnauthorizedCreator,
    /// An account's address is not the one derived from its seeds.
    AddressMismatch,
    /// No record exists at an address that must hold one.
    AccountNotInitialized,
    /// A record already exists at the address being initialized.
    AccountAlreadyInUse,
    /// The paying account holds fewer lamports than the payment.
    InsufficientFunds,
    /// One account was given in two roles of one operation.
    DuplicateAccount,
}

/// The message shown to a user for each error.
pub open spec fn message_of(e: MarketplaceError) -> Seq<char> {
    match e {
        MarketplaceError::UndefinedName => "Name cannot be undefined"@,
        MarketplaceError::NameTooLong => "Name cannot be more than 32 characters long"@,
        MarketplaceError::MathOverflowError => "Error occurred performing arithmetic probable overflow"@,
        MarketplaceError::InvalidFeeBps => "Fee basis points cannot exceed 10000 (100%)"@,
        MarketplaceError::NotAssetOwner => "Seller is not the owner of the asset"@,
        MarketplaceError::NotUpdateAuthority => "Seller is not the update authority of the asset"@,
        MarketplaceError::CollectionMismatch => "Asset does not belong to the specified collection"@,
        MarketplaceError::SellerMismatch => "You have a wrong seller"@,
        MarketplaceError::AssetMismatch => "You have a wrong asset"@,
        MarketplaceError::AssetNotInEscrow => "This Asset is not in Escrow"@,
        MarketplaceError::ListingNotActive => "Asset Listing is not active"@,
        MarketplaceError::UnauthorizedCreator => "Only the marketplace admin may do this"@,
        MarketplaceError::AddressMismatch => "Account address does not match its seeds"@,
        MarketplaceError::AccountNotInitialized => "Account holds no record"@,
        MarketplaceError::AccountAlreadyInUse => "Account is already in use"@,
        MarketplaceError::InsufficientFunds => "Insufficient lamports for the transfer"@,
        MarketplaceError::DuplicateAccount => "An account was given in two roles"@,
    }
}

impl MarketplaceError {
    /// The message shown to a user for this error.
    pub fn message(&self) -> (r: String)
        ensures
            r@ == message_of(*self),
    {
        match self {
            MarketplaceError::UndefinedName => String::from_str("Name cannot be undefined"),
            MarketplaceError::NameTooLong => String::from_str("Name cannot be more than 32 characters long"),
            MarketplaceError::MathOverflowError => String::from_str("Error occurred performing arithmetic probable overflow"),
            MarketplaceError::InvalidFeeBps => String::from_str("Fee basis points cannot exceed 10000 (100%)"),
            MarketplaceError::NotAssetOwner => String::from_str("Seller is not the owner of the asset"),
            MarketplaceError::NotUpdateAuthority => String::from_str("Seller is not the update authority of the asset"),
            MarketplaceError::CollectionMismatch => String::from_str("Asset does not belong to the specified collection"),
            MarketplaceError::SellerMismatch => String::from_str("You have a wrong seller"),
            MarketplaceError::AssetMismatch => String::from_str("You have a wrong asset"),
            MarketplaceError::AssetNotInEscrow => String::from_str("This Asset is not in Escrow"),
            MarketplaceError::ListingNotActive => String::from_str("Asset Listing is not active"),
            MarketplaceError::UnauthorizedCreator => String::from_str("Only the marketplace admin may do this"),
            MarketplaceError::AddressMismatch => String::from_str("Account address does not match its seeds"),
            MarketplaceError::AccountNotInitialized => String::from_str("Account holds no record"),
            MarketplaceError::AccountAlreadyInUse => String::from_str("Account is already in use"),
            MarketplaceError::InsufficientFunds => String::from_str("Insufficient lamports for the transfer"),
            MarketplaceError::DuplicateAccount => String::from_str("An account was given in two roles"),
        }
    }
}

} // verus!
