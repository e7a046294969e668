use vstd::prelude::*;
use vstd::utf8::encode_utf8;
use crate::address::{
    derive_marketplace_address, derives_to, derive_treasury_address, marketplace_address, same_address,
    treasury_address, Address,
};
use crate::error::MarketplaceError;
use crate::state::{Effect, Marketplace, MarketplaceAccount, SystemAccount};

verus! {

/// The longest marketplace name, in bytes.
pub const MAX_NAME_LEN: usize = 32;

/// The largest fee rate: 10000 basis points, the whole price.
pub const MAX_FEE_BPS: u16 = 10000;

/// The length of a name in bytes.
pub open spec fn name_len(name: Seq<char>) -> int {
    encode_utf8(name).len() as int
}

/// The accounts that registering a marketplace touches.
pub struct InitializeMarketplace {
    /// The marketplace program's own id, under which addresses are derived.
    pub program_id: Address,
    /// The admin, who pays for the treasury.
    pub admin: SystemAccount,
    /// The treasury that will receive fees.
    pub treasury: SystemAccount,
    /// The account that will hold the marketplace's record.
    pub marketplace: MarketplaceAccount,
    /// The lamports that keep the treasury account alive.
    pub rent_minimum: u64,
}

impl InitializeMarketplace {
    /// The outcome of the checks that registration makes, in order: the
    /// bumps of the marketplace and treasury addresses, or the first error.
    pub open spec fn check(&self, name: Seq<char>, fee_bps: u16) -> Result<(u8, u8), MarketplaceError> {
        let m = marketplace_address(self.program_id@, self.admin.key@);
        let t = treasury_address(self.program_id@, self.marketplace.key@);
        if name_len(name) > 32 {
            Err(MarketplaceError::NameTooLong)
        } else if name_len(name) == 0 {
            Err(MarketplaceError::UndefinedName)
        } else if fee_bps > 10000 {
            Err(MarketplaceError::InvalidFeeBps)
        } else if self.marketplace.data is Some {
            Err(MarketplaceError::AccountAlreadyInUse)
        } else if !derives_to(m, self.marketplace.key) || !derives_to(t, self.treasury.key) {
            Err(MarketplaceError::AddressMismatch)
        } else if self.admin.key@ == self.treasury.key@ {
            Err(MarketplaceError::DuplicateAccount)
        } else if self.admin.lamports < self.rent_minimum {
            Err(MarketplaceError::InsufficientFunds)
        } else if self.treasury.lamports + self.rent_minimum > u64::MAX {
            Err(MarketplaceError::MathOverflowError)
        } else {
            Ok((m.unwrap().1, t.unwrap().1))
        }
    }

    /// The accounts once the marketplace's record is stored and its treasury
    /// funded from the admin.
    pub open spec fn initialized(&self, name: String, fee_bps: u16, bump: u8, treasury_bump: u8) -> InitializeMarketplace {
        InitializeMarketplace {
            marketplace: MarketplaceAccount {
                key: self.marketplace.key,
                data: Some(Marketplace {
                    admin: self.admin.key,
                    name: name,
                    fee_bps: fee_bps,
                    bump: bump,
                    treasury_bump: treasury_bump,
                }),
            },
            admin: SystemAccount { lamports: (self.admin.lamports - self.rent_minimum) as u64, ..self.admin },
            treasury: SystemAccount { lamports: (self.treasury.lamports + self.rent_minimum) as u64, ..self.treasury },
            ..*self
        }
    }

    /// The payment that funds the treasury.
    pub open spec fn funding_effects(&self) -> Seq<Effect> {
        seq![Effect::Pay { from: self.admin.key, to: self.treasury.key, amount: self.rent_minimum }]
    }

    /// Registers a marketplace named `name` with fee rate `fee_bps`: stores
    /// its record and funds its treasury from the admin. On any error nothing
    /// changes.
    pub fn handle(&mut self, name: String, fee_bps: u16) -> (r: Result<Vec<Effect>, MarketplaceError>)
        ensures
            match old(self).check(name@, fee_bps) {
                Ok((bump, treasury_bump)) => {
                    &&& r matches Ok(effects) && effects@ == old(self).funding_effects()
                    &&& *final(self) == old(self).initialized(name, fee_bps, bump, treasury_bump)
                },
                Err(e) => r == Err::<Vec<Effect>, MarketplaceError>(e) && *final(self) == *old(self),
            },
    {
        let len = name.as_str().as_bytes().len();
        if len > MAX_NAME_LEN {
            return Err(MarketplaceError::NameTooLong);
        }
        if len == 0 {
            return Err(MarketplaceError::UndefinedName);
        }
        if fee_bps > MAX_FEE_BPS {
            return Err(MarketplaceError::InvalidFeeBps);
        }
        if self.marketplace.data.is_some() {
            return Err(MarketplaceError::AccountAlreadyInUse);
        }
        let (marketplace_key, bump) = match derive_marketplace_address(&self.program_id, &self.admin.key) {
            Some(d) => d,
            None => return Err(MarketplaceError::AddressMismatch),
        };
        if !same_address(&marketplace_key, &self.marketplace.key) {
            return Err(MarketplaceError::AddressMismatch);
        }
        let (treasury_key, treasury_bump) = match derive_treasury_address(&self.program_id, &self.marketplace.key) {
            Some(d) => d,
            None => return Err(MarketplaceError::AddressMismatch),
        };
        if !same_address(&treasury_key, &self.treasury.key) {
            return Err(MarketplaceError::AddressMismatch);
        }
        if same_address(&self.admin.key, &self.treasury.key) {
            return Err(MarketplaceError::DuplicateAccount);
        }
        if self.admin.lamports < self.rent_minimum {
            return Err(MarketplaceError::InsufficientFunds);
        }
        if self.treasury.lamports > u64::MAX - self.rent_minimum {
            return Err(MarketplaceError::MathOverflowError);
        }
        self.marketplace.data = Some(Marketplace {
            admin: self.admin.key,
            name,
            fee_bps,
            bump,
            treasury_bump,
        });
        self.admin.lamports = self.admin.lamports - self.rent_minimum;
        self.treasury.lamports = self.treasury.lamports + self.rent_minimum;
        let mut effects: Vec<Effect> = Vec::new();
        effects.push(Effect::Pay { from: self.admin.key, to: self.treasury.key, amount: self.rent_minimum });
        proof {
            assert(effects@ =~= old(self).funding_effects());
        }
        Ok(effects)
    }
}

/// A name of 1 to 32 bytes is accepted, whatever it holds: the outcome of
/// registration does not depend on it. An empty name is refused with
/// `UndefinedName`, and a longer one with `NameTooLong`.
pub proof fn lemma_name_length_bounds(ctx: InitializeMarketplace, name: Seq<char>, other: Seq<char>, fee_bps: u16)
    ensures
        name_len(name) == 0 ==> ctx.check(name, fee_bps) == Err::<(u8, u8), MarketplaceError>(MarketplaceError::UndefinedName),
        name_len(name) > 32 ==> ctx.check(name, fee_bps) == Err::<(u8, u8), MarketplaceError>(MarketplaceError::NameTooLong),
        1 <= name_len(name) <= 32 ==> {
            &&& ctx.check(name, fee_bps) != Err::<(u8, u8), MarketplaceError>(MarketplaceError::UndefinedName)
            &&& ctx.check(name, fee_bps) != Err::<(u8, u8), MarketplaceError>(MarketplaceError::NameTooLong)
        },
        1 <= name_len(name) <= 32 && 1 <= name_len(other) <= 32 ==> ctx.check(name, fee_bps) == ctx.check(other, fee_bps),
{
}

/// For an accepted name, a fee rate above 10000 basis points is refused
/// with `InvalidFeeBps`, and any rate up to 10000, the full price included,
/// fares exactly as a rate of zero.
pub proof fn lemma_fee_rate_bound(ctx: InitializeMarketplace, name: Seq<char>, fee_bps: u16)
    requires
        1 <= name_len(name) <= 32,
    ensures
        fee_bps > 10000 ==> ctx.check(name, fee_bps) == Err::<(u8, u8), MarketplaceError>(MarketplaceError::InvalidFeeBps),
        fee_bps <= 10000 ==> ctx.check(name, fee_bps) == ctx.check(name, 0),
{
}

} // verus!
