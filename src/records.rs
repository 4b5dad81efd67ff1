use vstd::prelude::*;
use crate::address::{same_address, Address};
use crate::rules::RewardRules;

verus! {

/// The life of a listing: active until it is sold or canceled, which is final.
#[derive(Clone, Copy, Debug, PartialEq, Eq, Structural)]
pub enum ListingState {
    Active,
    Sold,
    Canceled,
}

/// The life of an offer: active until it is accepted or canceled, which is final.
#[derive(Clone, Copy, Debug, PartialEq, Eq, Structural)]
pub enum OfferState {
    Active,
    Accepted,
    Canceled,
}

/// The overlay that binds an auction house to a reward-token mint and its rules.
#[derive(Clone, Copy, Debug)]
pub struct RewardCenter {
    pub address: Address,
    pub authority: Address,
    pub auction_house: Address,
    pub token_mint: Address,
    pub reward_rules: RewardRules,
    pub treasury_address: Address,
    pub treasury_balance: u64,
    pub bump_seed: u8,
}

/// A seller's ask for an item under a reward center.
#[derive(Clone, Copy, Debug)]
pub struct Listing {
    pub address: Address,
    pub reward_center: Address,
    pub seller: Address,
    pub metadata: Address,
    pub price: u64,
    pub token_size: u64,
    pub state: ListingState,
    pub bump_seed: u8,
}

/// A buyer's bid for an item under a reward center.
#[derive(Clone, Copy, Debug)]
pub struct Offer {
    pub address: Address,
    pub reward_center: Address,
    pub buyer: Address,
    pub metadata: Address,
    pub price: u64,
    pub token_size: u64,
    pub state: OfferState,
    pub bump_seed: u8,
}

/// A refusal by the auction house's escrow primitive, passed on as it came.
#[derive(Clone, Copy, Debug, PartialEq, Eq, Structural)]
pub struct AdapterError {
    pub code: u32,
}

/// What the auction house reports having taken into or released from escrow: whose
/// item or bid, which item, and at what price.
#[derive(Clone, Copy, Debug, PartialEq, Eq)]
pub struct EscrowReceipt {
    pub owner: Address,
    pub metadata: Address,
    pub price: u64,
}

/// What the auction house reports of an executed sale.
#[derive(Clone, Copy, Debug, PartialEq, Eq)]
pub struct SaleReceipt {
    pub seller: Address,
    pub buyer: Address,
    pub metadata: Address,
    pub price_paid: u64,
}

/// Reward tokens sent out of a treasury to `destination`.
#[derive(Clone, Copy, Debug, PartialEq, Eq)]
pub struct TokenTransfer {
    pub destination: Address,
    pub amount: u64,
}

/// The rewards of one sale: what goes to the buyer and what to the seller.
#[derive(Clone, Copy, Debug, PartialEq, Eq)]
pub struct Disbursement {
    pub buyer: TokenTransfer,
    pub seller: TokenTransfer,
}

/// Why an operation was refused. A refused operation changes nothing.
#[derive(Clone, Copy, Debug, PartialEq, Eq, Structural)]
pub enum RewardCenterError {
    /// Basis points above the whole, or a zero payout numeral.
    ConfigurationError,
    /// The caller is not the seller, buyer or authority the record names.
    AuthorizationError,
    /// The record is not in the state the operation needs, or an active one exists.
    StateConflictError,
    /// A supplied account is not the one its seeds or back-references give.
    AddressMismatchError,
    /// The treasury holds less than asked for.
    InsufficientFundsError,
    /// No record stands at the supplied address.
    AccountNotFound,
    /// The listing and the offer name different prices.
    PriceMismatch,
    /// The auction house escrowed, released or sold something other than what the
    /// operation asked for.
    EscrowMismatch,
    /// A deposit would take the treasury past the largest balance.
    BalanceOverflow,
    /// The auction house refused the escrow operation.
    AdapterError(AdapterError),
}

/// The auction house's escrow outcome, checked against the owner, item and price the
/// operation asked for.
pub open spec fn escrow_result(
    outcome: Result<EscrowReceipt, AdapterError>,
    owner: Address,
    metadata: Address,
    price: u64,
) -> Result<(), RewardCenterError> {
    match outcome {
        Err(e) => Err(RewardCenterError::AdapterError(e)),
        Ok(r) => if r.owner == owner && r.metadata == metadata && r.price == price {
            Ok(())
        } else {
            Err(RewardCenterError::EscrowMismatch)
        },
    }
}

/// The auction house's sale outcome, checked against the seller, buyer, item and
/// price the operation asked for.
pub open spec fn sale_result(
    outcome: Result<SaleReceipt, AdapterError>,
    seller: Address,
    buyer: Address,
    metadata: Address,
    price: u64,
) -> Result<(), RewardCenterError> {
    match outcome {
        Err(e) => Err(RewardCenterError::AdapterError(e)),
        Ok(r) => if r.seller == seller && r.buyer == buyer && r.metadata == metadata && r.price_paid == price {
            Ok(())
        } else {
            Err(RewardCenterError::EscrowMismatch)
        },
    }
}

/// Checks an escrow outcome against the owner, item and price asked for.
pub fn check_escrow(
    outcome: &Result<EscrowReceipt, AdapterError>,
    owner: &Address,
    metadata: &Address,
    price: u64,
) -> (r: Result<(), RewardCenterError>)
    ensures
        r == escrow_result(*outcome, *owner, *metadata, price),
{
    match outcome {
        Err(e) => Err(RewardCenterError::AdapterError(*e)),
        Ok(r) => if same_address(&r.owner, owner) && same_address(&r.metadata, metadata) && r.price == price {
            Ok(())
        } else {
            Err(RewardCenterError::EscrowMismatch)
        },
    }
}

/// Checks a sale outcome against the seller, buyer, item and price asked for.
pub fn check_sale(
    outcome: &Result<SaleReceipt, AdapterError>,
    seller: &Address,
    buyer: &Address,
    metadata: &Address,
    price: u64,
) -> (r: Result<(), RewardCenterError>)
    ensures
        r == sale_result(*outcome, *seller, *buyer, *metadata, price),
{
    match outcome {
        Err(e) => Err(RewardCenterError::AdapterError(*e)),
        Ok(r) => if same_address(&r.seller, seller) && same_address(&r.buyer, buyer)
            && same_address(&r.metadata, metadata) && r.price_paid == price {
            Ok(())
        } else {
            Err(RewardCenterError::EscrowMismatch)
        },
    }
}

/// A record stored under its own address.
pub trait Keyed {
    spec fn key(&self) -> Address;

    fn key_address(&self) -> (r: Address)
        ensures
            r == self.key(),
    ;
}

impl Keyed for RewardCenter {
    open spec fn key(&self) -> Address {
        self.address
    }

    fn key_address(&self) -> (r: Address) {
        self.address
    }
}

impl Keyed for Listing {
    open spec fn key(&self) -> Address {
        self.address
    }

    fn key_address(&self) -> (r: Address) {
        self.address
    }
}

impl Keyed for Offer {
    open spec fn key(&self) -> Address {
        self.address
    }

    fn key_address(&self) -> (r: Address) {
        self.address
    }
}

/// No two records share an address.
pub open spec fn unique_keys<R: Keyed>(s: Seq<R>) -> bool {
    forall|i: int, j: int|
        0 <= i < s.len() && 0 <= j < s.len() && i != j ==> #[trigger] s[i].key() != #[trigger] s[j].key()
}

/// The position of the record stored at `a`, if any.
pub open spec fn slot_of<R: Keyed>(s: Seq<R>, a: Address) -> Option<int> {
    if exists|i: int| 0 <= i < s.len() && #[trigger] s[i].key() == a {
        Some(choose|i: int| 0 <= i < s.len() && #[trigger] s[i].key() == a)
    } else {
        None
    }
}

/// Where the keys are unique, the record found at `a` is the one position holding it.
pub proof fn lemma_slot_of<R: Keyed>(s: Seq<R>, a: Address, i: int)
    requires
        unique_keys(s),
        0 <= i < s.len(),
        s[i].key() == a,
    ensures
        slot_of(s, a) == Some(i),
{
    let j = choose|j: int| 0 <= j < s.len() && #[trigger] s[j].key() == a;
    assert(s[j].key() == a);
}

/// Replacing a record by one at the same address keeps the addresses distinct.
pub proof fn lemma_update_keeps_keys<R: Keyed>(s: Seq<R>, i: int, x: R)
    requires
        unique_keys(s),
        0 <= i < s.len(),
        s[i].key() == x.key(),
    ensures
        unique_keys(s.update(i, x)),
        forall|a: Address| slot_of(s.update(i, x), a) == slot_of(s, a),
{
    let t = s.update(i, x);
    assert forall|j: int| 0 <= j < s.len() implies #[trigger] t[j].key() == s[j].key() by {}
    assert forall|a: Address| slot_of(t, a) == slot_of(s, a) by {
        if exists|j: int| 0 <= j < s.len() && #[trigger] s[j].key() == a {
            let j = choose|j: int| 0 <= j < s.len() && #[trigger] s[j].key() == a;
            assert(t[j].key() == a);
            lemma_slot_of(s, a, j);
            lemma_slot_of(t, a, j);
        } else {
            assert forall|j: int| 0 <= j < t.len() implies #[trigger] t[j].key() != a by {
                assert(s[j].key() != a);
            }
        }
    }
}

/// Adding a record at an address where none stands keeps the addresses distinct.
pub proof fn lemma_push_keeps_keys<R: Keyed>(s: Seq<R>, x: R)
    requires
        unique_keys(s),
        slot_of(s, x.key()) is None,
    ensures
        unique_keys(s.push(x)),
{
    let t = s.push(x);
    assert forall|i: int, j: int|
        0 <= i < t.len() && 0 <= j < t.len() && i != j implies #[trigger] t[i].key() != #[trigger] t[j].key() by {
        if i == s.len() {
            assert(s[j].key() != x.key());
        } else if j == s.len() {
            assert(s[i].key() != x.key());
        } else {
            assert(s[i].key() != s[j].key());
        }
    }
}

/// Finds the record stored at `a`.
pub fn find_record<R: Keyed>(v: &Vec<R>, a: &Address) -> (r: Option<usize>)
    requires
        unique_keys(v@),
    ensures
        r is None ==> slot_of(v@, *a) is None,
        r matches Some(i) ==> i < v@.len() && slot_of(v@, *a) == Some(i as int),
{
    let mut i: usize = 0;
    while i < v.len()
        invariant
            i <= v@.len(),
            unique_keys(v@),
            forall|j: int| 0 <= j < i ==> #[trigger] v@[j].key() != *a,
        decreases v@.len() - i,
    {
        let k = v[i].key_address();
        if crate::address::same_address(&k, a) {
            proof {
                lemma_slot_of(v@, *a, i as int);
            }
            return Some(i);
        }
        i = i + 1;
    }
    None
}

} // verus!
