use vstd::prelude::*;
use anchor_lang::prelude::Pubkey;

verus! {

/// An account address: the 32 bytes of a public key.
pub type Address = [u8; 32];

/// The program-derived address and bump for a list of seeds under a program
/// id, as the ledger's derivation computes it; `None` where no bump gives an
/// address off the curve.
pub uninterp spec fn program_address_of(seeds: Seq<Seq<u8>>, program_id: Seq<u8>) -> Option<(Seq<u8>, u8)>;

/// The bytes of each seed.
pub open spec fn seeds_view(seeds: Seq<Vec<u8>>) -> Seq<Seq<u8>> {
    seeds.map_values(|s: Vec<u8>| s@)
}

/// A derived address and bump, seen as bytes.
pub open spec fn derived_view(r: Option<(Address, u8)>) -> Option<(Seq<u8>, u8)> {
    match r {
        Some((a, b)) => Some((a@, b)),
        None => None,
    }
}

/// Relies on `Pubkey::try_find_program_address`: searches the bumps from 255
/// down for the first address off the curve; the result depends on the
/// seeds and the program id alone, and it never panics.
#[verifier::external_body]
fn try_find_program_address(seeds: &Vec<Vec<u8>>, program_id: &Address) -> (r: Option<(Address, u8)>)
    ensures
        derived_view(r) == program_address_of(seeds_view(seeds@), program_id@),
{
    let parts: Vec<&[u8]> = seeds.iter().map(|s| s.as_slice()).collect();
    Pubkey::try_find_program_address(&parts, &Pubkey::new_from_array(*program_id))
        .map(|(key, bump)| (key.to_bytes(), bump))
}

/// Tests two addresses for equality byte by byte.
pub fn same_address(a: &Address, b: &Address) -> (r: bool)
    ensures
        r == (a@ == b@),
{
    let mut i: usize = 0;
    while i < 32
        invariant
            i <= 32,
            forall|j: int| 0 <= j < i ==> a@[j] == b@[j],
        decreases 32 - i,
    {
        if a[i] != b[i] {
            return false;
        }
        i = i + 1;
    }
    assert(a@ =~= b@);
    true
}

/// The bytes of an address as a vector.
fn address_bytes(a: &Address) -> (r: Vec<u8>)
    ensures
        r@ == a@,
{
    let mut v: Vec<u8> = Vec::new();
    let mut i: usize = 0;
    while i < 32
        invariant
            i <= 32,
            v@ == a@.subrange(0, i as int),
        decreases 32 - i,
    {
        v.push(a[i]);
        i = i + 1;
        assert(v@ =~= a@.subrange(0, i as int));
    }
    assert(v@ =~= a@);
    v
}

/// The namespace tag of marketplace records, `b"marketplace"`.
pub open spec fn marketplace_tag() -> Seq<u8> {
    seq![109u8, 97u8, 114u8, 107u8, 101u8, 116u8, 112u8, 108u8, 97u8, 99u8, 101u8]
}

/// The namespace tag of treasuries, `b"treasury"`.
pub open spec fn treasury_tag() -> Seq<u8> {
    seq![116u8, 114u8, 101u8, 97u8, 115u8, 117u8, 114u8, 121u8]
}

/// The namespace tag of listing records, `b"listing"`.
pub open spec fn listing_tag() -> Seq<u8> {
    seq![108u8, 105u8, 115u8, 116u8, 105u8, 110u8, 103u8]
}

/// The namespace tag of escrow authorities, `b"escrow"`.
pub open spec fn escrow_tag() -> Seq<u8> {
    seq![101u8, 115u8, 99u8, 114u8, 111u8, 119u8]
}

/// The address and bump of the marketplace that `admin` runs.
pub open spec fn marketplace_address(program_id: Seq<u8>, admin: Seq<u8>) -> Option<(Seq<u8>, u8)> {
    program_address_of(seq![marketplace_tag(), admin], program_id)
}

/// The address and bump of a marketplace's treasury.
pub open spec fn treasury_address(program_id: Seq<u8>, marketplace: Seq<u8>) -> Option<(Seq<u8>, u8)> {
    program_address_of(seq![treasury_tag(), marketplace], program_id)
}

/// The address and bump of the listing of `item` on `marketplace`.
pub open spec fn listing_address(program_id: Seq<u8>, marketplace: Seq<u8>, item: Seq<u8>) -> Option<(Seq<u8>, u8)> {
    program_address_of(seq![listing_tag(), marketplace, item], program_id)
}

/// The address and bump of a listing's escrow.
pub open spec fn escrow_address(program_id: Seq<u8>, listing: Seq<u8>) -> Option<(Seq<u8>, u8)> {
    program_address_of(seq![escrow_tag(), listing], program_id)
}

fn derive(tag: Vec<u8>, first: &Address, second: Option<&Address>, program_id: &Address) -> (r: Option<(Address, u8)>)
    ensures
        derived_view(r) == match second {
            Some(s) => program_address_of(seq![tag@, first@, s@], program_id@),
            None => program_address_of(seq![tag@, first@], program_id@),
        },
{
    let mut seeds: Vec<Vec<u8>> = Vec::new();
    seeds.push(tag);
    seeds.push(address_bytes(first));
    match second {
        Some(s) => {
            seeds.push(address_bytes(s));
        },
        None => {},
    }
    assert(seeds_view(seeds@) =~= match second {
        Some(s) => seq![tag@, first@, s@],
        None => seq![tag@, first@],
    });
    try_find_program_address(&seeds, program_id)
}

/// Derives the address and bump of the marketplace that `admin` runs.
pub fn derive_marketplace_address(program_id: &Address, admin: &Address) -> (r: Option<(Address, u8)>)
    ensures
        derived_view(r) == marketplace_address(program_id@, admin@),
{
    let tag: Vec<u8> = vec![109u8, 97u8, 114u8, 107u8, 101u8, 116u8, 112u8, 108u8, 97u8, 99u8, 101u8];
    assert(tag@ =~= marketplace_tag());
    derive(tag, admin, None, program_id)
}

/// Derives the address and bump of a marketplace's treasury.
pub fn derive_treasury_address(program_id: &Address, marketplace: &Address) -> (r: Option<(Address, u8)>)
    ensures
        derived_view(r) == treasury_address(program_id@, marketplace@),
{
    let tag: Vec<u8> = vec![116u8, 114u8, 101u8, 97u8, 115u8, 117u8, 114u8, 121u8];
    assert(tag@ =~= treasury_tag());
    derive(tag, marketplace, None, program_id)
}

/// Derives the address and bump of the listing of `item` on `marketplace`.
pub fn derive_listing_address(program_id: &Address, marketplace: &Address, item: &Address) -> (r: Option<(Address, u8)>)
    ensures
        derived_view(r) == listing_address(program_id@, marketplace@, item@),
{
    let tag: Vec<u8> = vec![108u8, 105u8, 115u8, 116u8, 105u8, 110u8, 103u8];
    assert(tag@ =~= listing_tag());
    derive(tag, marketplace, Some(item), program_id)
}

/// Derives the address and bump of a listing's escrow.
pub fn derive_escrow_address(program_id: &Address, listing: &Address) -> (r: Option<(Address, u8)>)
    ensures
        derived_view(r) == escrow_address(program_id@, listing@),
{
    let tag: Vec<u8> = vec![101u8, 115u8, 99u8, 114u8, 111u8, 119u8];
    assert(tag@ =~= escrow_tag());
    derive(tag, listing, None, program_id)
}

/// Whether `key` is the address part of the derivation result `d`.
pub open spec fn derives_to(d: Option<(Seq<u8>, u8)>, key: Address) -> bool {
    d is Some && d.unwrap().0 == key@
}

/// Whether `key` is the derived address `derived`, with bump `bump`.
pub open spec fn is_derived(key: Address, bump: u8, derived: Option<(Seq<u8>, u8)>) -> bool {
    derived == Some((key@, bump))
}

/// Tests whether `key` and `bump` are the derived address and bump `derived`.
pub fn check_derived(key: &Address, bump: u8, derived: Option<(Address, u8)>) -> (r: bool)
    ensures
        r == is_derived(*key, bump, derived_view(derived)),
{
    match derived {
        Some((a, b)) => b == bump && same_address(key, &a),
        None => false,
    }
}

/// The four derived accounts of one listing, each with its bump.
#[derive(Clone, Copy, Debug, PartialEq, Eq)]
pub struct AccountAddresses {
    pub marketplace: (Address, u8),
    pub treasury: (Address, u8),
    pub listing: (Address, u8),
    pub escrow: (Address, u8),
}

/// The derived accounts, seen as bytes.
pub open spec fn addresses_view(r: Option<AccountAddresses>) -> Option<Seq<(Seq<u8>, u8)>> {
    match r {
        Some(a) => Some(seq![
            (a.marketplace.0@, a.marketplace.1),
            (a.treasury.0@, a.treasury.1),
            (a.listing.0@, a.listing.1),
            (a.escrow.0@, a.escrow.1),
        ]),
        None => None,
    }
}

/// The marketplace that `admin` runs, its treasury, the listing of `item`
/// on it and that listing's escrow, each derived from the one before; `None`
/// where a derivation finds no address.
pub open spec fn account_addresses(program_id: Seq<u8>, admin: Seq<u8>, item: Seq<u8>) -> Option<Seq<(Seq<u8>, u8)>> {
    let m = marketplace_address(program_id, admin);
    let t = treasury_address(program_id, m.unwrap().0);
    let l = listing_address(program_id, m.unwrap().0, item);
    let e = escrow_address(program_id, l.unwrap().0);
    if m is Some && t is Some && l is Some && e is Some {
        Some(seq![m.unwrap(), t.unwrap(), l.unwrap(), e.unwrap()])
    } else {
        None
    }
}

/// Recomputes, from public identities alone, every account address that a
/// listing of `item` on the marketplace of `admin` involves.
pub fn derive_account_addresses(program_id: &Address, admin: &Address, item: &Address) -> (r: Option<AccountAddresses>)
    ensures
        addresses_view(r) == account_addresses(program_id@, admin@, item@),
{
    let marketplace = match derive_marketplace_address(program_id, admin) {
        Some(d) => d,
        None => return None,
    };
    let treasury = match derive_treasury_address(program_id, &marketplace.0) {
        Some(d) => d,
        None => return None,
    };
    let listing = match derive_listing_address(program_id, &marketplace.0, item) {
        Some(d) => d,
        None => return None,
    };
    let escrow = match derive_escrow_address(program_id, &listing.0) {
        Some(d) => d,
        None => return None,
    };
    let r = AccountAddresses { marketplace, treasury, listing, escrow };
    proof {
        assert(addresses_view(Some(r)).unwrap() =~= account_addresses(program_id@, admin@, item@).unwrap());
    }
    Some(r)
}

/// Deriving the accounts twice from the same public inputs gives the same
/// addresses and bumps.
pub proof fn lemma_rederivation_agrees(
    program_id: Address,
    admin: Address,
    item: Address,
    first: Option<AccountAddresses>,
    second: Option<AccountAddresses>,
)
    requires
        addresses_view(first) == account_addresses(program_id@, admin@, item@),
        addresses_view(second) == account_addresses(program_id@, admin@, item@),
    ensures
        addresses_view(first) == addresses_view(second),
{
}

} // verus!
