use vstd::prelude::*;

verus! {

/// A 32-byte account address on the ledger.
#[derive(Clone, Copy, Debug)]
pub struct Address {
    pub bytes: [u8; 32],
}

impl PartialEq for Address {
    fn eq(&self, o: &Address) -> (r: bool) {
        same_address(self, o)
    }
}

impl Eq for Address {}

impl vstd::std_specs::cmp::PartialEqSpecImpl for Address {
    open spec fn obeys_eq_spec() -> bool {
        true
    }

    open spec fn eq_spec(&self, o: &Address) -> bool {
        *self == *o
    }
}

/// The program-derived address and bump seed for `seeds` under `program_id`, if any.
pub uninterp spec fn program_address(seeds: Seq<Seq<u8>>, program_id: [u8; 32]) -> Option<([u8; 32], u8)>;

/// The byte strings that a vector of seeds holds.
pub open spec fn seeds_view(seeds: Seq<Vec<u8>>) -> Seq<Seq<u8>> {
    Seq::new(seeds.len(), |i: int| seeds[i]@)
}

/// What a derivation over `seeds` gives, as an address and a bump seed.
pub open spec fn derived(seeds: Seq<Seq<u8>>, program_id: Address) -> Option<(Address, u8)> {
    match program_address(seeds, program_id.bytes) {
        Some(p) => Some((Address { bytes: p.0 }, p.1)),
        None => None,
    }
}

/// Relies on solana_program's `Pubkey::try_find_program_address`: the first bump seed,
/// counting down from 255, for which the seeds give an address off the curve, or `None`
/// where there is none or the seeds are too many or too long. It depends on its
/// arguments alone.
#[verifier::external_body]
fn try_find_program_address(seeds: &Vec<Vec<u8>>, program_id: &Address) -> (r: Option<(Address, u8)>)
    ensures
        r is None ==> program_address(seeds_view(seeds@), program_id.bytes) is None,
        r matches Some(p) ==> program_address(seeds_view(seeds@), program_id.bytes) == Some((p.0.bytes, p.1)),
{
    let slices: Vec<&[u8]> = seeds.iter().map(|s| s.as_slice()).collect();
    let program = solana_program::pubkey::Pubkey::new_from_array(program_id.bytes);
    solana_program::pubkey::Pubkey::try_find_program_address(&slices, &program).map(
        |(a, bump)| (Address { bytes: a.to_bytes() }, bump),
    )
}

/// Compares two addresses byte by byte.
pub fn same_address(a: &Address, b: &Address) -> (r: bool)
    ensures
        r == (*a == *b),
{
    let mut i: usize = 0;
    while i < 32
        invariant
            i <= 32,
            forall|j: int| 0 <= j < i ==> a.bytes[j] == b.bytes[j],
        decreases 32 - i,
    {
        if a.bytes[i] != b.bytes[i] {
            return false;
        }
        i = i + 1;
    }
    assert(a.bytes =~= b.bytes);
    true
}

/// The bytes of an address, as a seed.
fn address_seed(a: &Address) -> (r: Vec<u8>)
    ensures
        r@ == a.bytes@,
{
    let mut v: Vec<u8> = Vec::new();
    let mut i: usize = 0;
    while i < 32
        invariant
            i <= 32,
            v@ == a.bytes@.take(i as int),
        decreases 32 - i,
    {
        v.push(a.bytes[i]);
        i = i + 1;
        assert(v@ =~= a.bytes@.take(i as int));
    }
    assert(a.bytes@.take(32) =~= a.bytes@);
    v
}

pub open spec fn reward_center_label() -> Seq<u8> {
    seq![114u8, 101, 119, 97, 114, 100, 95, 99, 101, 110, 116, 101, 114]
}

pub open spec fn listing_label() -> Seq<u8> {
    seq![108u8, 105, 115, 116, 105, 110, 103]
}

pub open spec fn offer_label() -> Seq<u8> {
    seq![111u8, 102, 102, 101, 114]
}

pub open spec fn treasury_label() -> Seq<u8> {
    seq![116u8, 114, 101, 97, 115, 117, 114, 121]
}

/// Seeds of the reward center of an auction house.
pub open spec fn reward_center_seeds(auction_house: Address) -> Seq<Seq<u8>> {
    seq![reward_center_label(), auction_house.bytes@]
}

/// Seeds of the reward-token treasury of a reward center.
pub open spec fn treasury_seeds(reward_center: Address, token_mint: Address) -> Seq<Seq<u8>> {
    seq![treasury_label(), reward_center.bytes@, token_mint.bytes@]
}

/// Seeds of a seller's listing of an item under a reward center.
pub open spec fn listing_seeds(seller: Address, metadata: Address, reward_center: Address) -> Seq<Seq<u8>> {
    seq![listing_label(), seller.bytes@, metadata.bytes@, reward_center.bytes@]
}

/// Seeds of a buyer's offer on an item under a reward center.
pub open spec fn offer_seeds(buyer: Address, metadata: Address, reward_center: Address) -> Seq<Seq<u8>> {
    seq![offer_label(), buyer.bytes@, metadata.bytes@, reward_center.bytes@]
}

/// Derives the address of the reward center of `auction_house`.
pub fn find_reward_center_address(program_id: &Address, auction_house: &Address) -> (r: Option<(Address, u8)>)
    ensures
        r == derived(reward_center_seeds(*auction_house), *program_id),
{
    let seeds: Vec<Vec<u8>> = vec![
        vec![114u8, 101, 119, 97, 114, 100, 95, 99, 101, 110, 116, 101, 114],
        address_seed(auction_house),
    ];
    assert(seeds_view(seeds@) =~= reward_center_seeds(*auction_house));
    try_find_program_address(&seeds, program_id)
}

/// Derives the address of the treasury of `reward_center` for `token_mint`.
pub fn find_treasury_address(program_id: &Address, reward_center: &Address, token_mint: &Address) -> (r: Option<(Address, u8)>)
    ensures
        r == derived(treasury_seeds(*reward_center, *token_mint), *program_id),
{
    let seeds: Vec<Vec<u8>> = vec![
        vec![116u8, 114, 101, 97, 115, 117, 114, 121],
        address_seed(reward_center),
        address_seed(token_mint),
    ];
    assert(seeds_view(seeds@) =~= treasury_seeds(*reward_center, *token_mint));
    try_find_program_address(&seeds, program_id)
}

/// Derives the address of the listing of `metadata` by `seller` under `reward_center`.
pub fn find_listing_address(program_id: &Address, seller: &Address, metadata: &Address, reward_center: &Address) -> (r: Option<(Address, u8)>)
    ensures
        r == derived(listing_seeds(*seller, *metadata, *reward_center), *program_id),
{
    let seeds: Vec<Vec<u8>> = vec![
        vec![108u8, 105, 115, 116, 105, 110, 103],
        address_seed(seller),
        address_seed(metadata),
        address_seed(reward_center),
    ];
    assert(seeds_view(seeds@) =~= listing_seeds(*seller, *metadata, *reward_center));
    try_find_program_address(&seeds, program_id)
}

/// Derives the address of the offer on `metadata` by `buyer` under `reward_center`.
pub fn find_offer_address(program_id: &Address, buyer: &Address, metadata: &Address, reward_center: &Address) -> (r: Option<(Address, u8)>)
    ensures
        r == derived(offer_seeds(*buyer, *metadata, *reward_center), *program_id),
{
    let seeds: Vec<Vec<u8>> = vec![
        vec![111u8, 102, 102, 101, 114],
        address_seed(buyer),
        address_seed(metadata),
        address_seed(reward_center),
    ];
    assert(seeds_view(seeds@) =~= offer_seeds(*buyer, *metadata, *reward_center));
    try_find_program_address(&seeds, program_id)
}

} // verus!
