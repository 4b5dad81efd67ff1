use vstd::prelude::*;
use crate::address::{
    derived, find_listing_address, find_offer_address, find_reward_center_address,
    find_treasury_address, listing_seeds, offer_seeds, reward_center_seeds, same_address,
    treasury_seeds, Address,
};
use crate::records::{
    check_escrow, check_sale, escrow_result, sale_result, Disbursement, EscrowReceipt, SaleReceipt,
    TokenTransfer, find_record, lemma_push_keeps_keys, lemma_update_keeps_keys, slot_of, unique_keys, AdapterError, Listing, ListingState, Offer, OfferState,
    RewardCenter, RewardCenterError,
};
use crate::rules::{compute_reward, reward_of, valid_rules, validate_rules, RewardPayout, RewardRules};

verus! {

/// The records that the reward program owns on the ledger.
pub struct Market {
    pub program_id: Address,
    pub reward_centers: Vec<RewardCenter>,
    pub listings: Vec<Listing>,
    pub offers: Vec<Offer>,
}

/// The contents of a market.
pub struct MarketView {
    pub program_id: Address,
    pub reward_centers: Seq<RewardCenter>,
    pub listings: Seq<Listing>,
    pub offers: Seq<Offer>,
}

impl View for Market {
    type V = MarketView;

    open spec fn view(&self) -> MarketView {
        MarketView {
            program_id: self.program_id,
            reward_centers: self.reward_centers@,
            listings: self.listings@,
            offers: self.offers@,
        }
    }
}

/// Every record has its own address and every reward center valid rules.
pub open spec fn market_wf(m: MarketView) -> bool {
    &&& unique_keys(m.reward_centers)
    &&& unique_keys(m.listings)
    &&& unique_keys(m.offers)
    &&& forall|i: int| 0 <= i < m.reward_centers.len() ==> valid_rules(#[trigger] m.reward_centers[i].reward_rules)
}

pub open spec fn with_centers(m: MarketView, s: Seq<RewardCenter>) -> MarketView {
    MarketView { reward_centers: s, ..m }
}

pub open spec fn with_listings(m: MarketView, s: Seq<Listing>) -> MarketView {
    MarketView { listings: s, ..m }
}

pub open spec fn with_offers(m: MarketView, s: Seq<Offer>) -> MarketView {
    MarketView { offers: s, ..m }
}

/// Creating the reward center of `auction_house`: the rules must be valid, both
/// addresses derivable, and no reward center may stand there yet. Its treasury
/// starts empty.
pub open spec fn create_reward_center_spec(
    m: MarketView,
    authority: Address,
    auction_house: Address,
    token_mint: Address,
    rules: RewardRules,
) -> (MarketView, Result<Address, RewardCenterError>) {
    if !valid_rules(rules) {
        (m, Err(RewardCenterError::ConfigurationError))
    } else {
        match derived(reward_center_seeds(auction_house), m.program_id) {
            None => (m, Err(RewardCenterError::AddressMismatchError)),
            Some(rc) => match derived(treasury_seeds(rc.0, token_mint), m.program_id) {
                None => (m, Err(RewardCenterError::AddressMismatchError)),
                Some(t) => if slot_of(m.reward_centers, rc.0) is Some {
                    (m, Err(RewardCenterError::StateConflictError))
                } else {
                    let c = RewardCenter {
                        address: rc.0,
                        authority,
                        auction_house,
                        token_mint,
                        reward_rules: rules,
                        treasury_address: t.0,
                        treasury_balance: 0,
                        bump_seed: rc.1,
                    };
                    (with_centers(m, m.reward_centers.push(c)), Ok(rc.0))
                },
            },
        }
    }
}

/// Replacing the rules of a reward center, by its authority, with valid ones.
pub open spec fn edit_reward_center_spec(
    m: MarketView,
    caller: Address,
    reward_center: Address,
    rules: RewardRules,
) -> (MarketView, Result<(), RewardCenterError>) {
    match slot_of(m.reward_centers, reward_center) {
        None => (m, Err(RewardCenterError::AccountNotFound)),
        Some(i) => {
            let c = m.reward_centers[i];
            if c.authority != caller {
                (m, Err(RewardCenterError::AuthorizationError))
            } else if !valid_rules(rules) {
                (m, Err(RewardCenterError::ConfigurationError))
            } else {
                (with_centers(m, m.reward_centers.update(i, RewardCenter { reward_rules: rules, ..c })), Ok(()))
            }
        },
    }
}

/// Taking `amount` out of a treasury, by its authority, when the treasury holds it;
/// the tokens go to `destination`.
pub open spec fn withdraw_spec(
    m: MarketView,
    caller: Address,
    reward_center: Address,
    amount: u64,
    destination: Address,
) -> (MarketView, Result<TokenTransfer, RewardCenterError>) {
    match slot_of(m.reward_centers, reward_center) {
        None => (m, Err(RewardCenterError::AccountNotFound)),
        Some(i) => {
            let c = m.reward_centers[i];
            if c.authority != caller {
                (m, Err(RewardCenterError::AuthorizationError))
            } else if amount > c.treasury_balance {
                (m, Err(RewardCenterError::InsufficientFundsError))
            } else {
                let c2 = RewardCenter { treasury_balance: (c.treasury_balance - amount) as u64, ..c };
                (with_centers(m, m.reward_centers.update(i, c2)), Ok(TokenTransfer { destination, amount }))
            }
        },
    }
}

/// Paying `amount` reward tokens into a treasury.
pub open spec fn fund_treasury_spec(
    m: MarketView,
    reward_center: Address,
    amount: u64,
) -> (MarketView, Result<(), RewardCenterError>) {
    match slot_of(m.reward_centers, reward_center) {
        None => (m, Err(RewardCenterError::AccountNotFound)),
        Some(i) => {
            let c = m.reward_centers[i];
            if c.treasury_balance + amount > u64::MAX {
                (m, Err(RewardCenterError::BalanceOverflow))
            } else {
                let c2 = RewardCenter { treasury_balance: (c.treasury_balance + amount) as u64, ..c };
                (with_centers(m, m.reward_centers.update(i, c2)), Ok(()))
            }
        },
    }
}

/// The record a listing gets when created: active at the given price.
pub open spec fn new_listing(
    address: Address, bump: u8, reward_center: Address, seller: Address, metadata: Address,
    price: u64, token_size: u64,
) -> Listing {
    Listing { address, reward_center, seller, metadata, price, token_size, state: ListingState::Active, bump_seed: bump }
}

/// Stores `x` at its address: over the record there, or as a new one.
pub open spec fn put_listing(s: Seq<Listing>, x: Listing) -> Seq<Listing> {
    match slot_of(s, x.address) {
        Some(j) => s.update(j, x),
        None => s.push(x),
    }
}

/// Listing an item, signed by the seller: the reward center must exist, `listing`
/// must be the address derived from the seller, the item and the reward center, and
/// no active listing may stand there. `sell` is the outcome of the auction house's
/// sell call; the listing is written only when it reports the seller's item escrowed
/// at `price`. A sold or canceled listing at that address gives way to the new one.
pub open spec fn create_listing_spec(
    m: MarketView,
    signer: Address,
    seller: Address,
    reward_center: Address,
    metadata: Address,
    listing: Address,
    price: u64,
    token_size: u64,
    sell: Result<EscrowReceipt, AdapterError>,
) -> (MarketView, Result<(), RewardCenterError>) {
    if signer != seller {
        (m, Err(RewardCenterError::AuthorizationError))
    } else if slot_of(m.reward_centers, reward_center) is None {
        (m, Err(RewardCenterError::AccountNotFound))
    } else {
        match derived(listing_seeds(seller, metadata, reward_center), m.program_id) {
            None => (m, Err(RewardCenterError::AddressMismatchError)),
            Some(d) => if d.0 != listing {
                (m, Err(RewardCenterError::AddressMismatchError))
            } else if (match slot_of(m.listings, listing) {
                Some(j) => m.listings[j].state == ListingState::Active,
                None => false,
            }) {
                (m, Err(RewardCenterError::StateConflictError))
            } else {
                match escrow_result(sell, seller, metadata, price) {
                    Err(e) => (m, Err(e)),
                    Ok(_) => (
                        with_listings(m, put_listing(m.listings, new_listing(listing, d.1, reward_center, seller, metadata, price, token_size))),
                        Ok(()),
                    ),
                }
            },
        }
    }
}

/// Changing the price of an active listing, by its seller. `reprice` is the outcome
/// of the auction house's sell call at the new price; the price changes only when it
/// reports the seller's item escrowed at `new_price`, so the escrowed price and the
/// listing's price stay one.
pub open spec fn update_listing_spec(
    m: MarketView,
    seller: Address,
    listing: Address,
    new_price: u64,
    reprice: Result<EscrowReceipt, AdapterError>,
) -> (MarketView, Result<(), RewardCenterError>) {
    match slot_of(m.listings, listing) {
        None => (m, Err(RewardCenterError::AccountNotFound)),
        Some(j) => {
            let l = m.listings[j];
            if l.seller != seller {
                (m, Err(RewardCenterError::AuthorizationError))
            } else if l.state != ListingState::Active {
                (m, Err(RewardCenterError::StateConflictError))
            } else {
                match escrow_result(reprice, l.seller, l.metadata, new_price) {
                    Err(e) => (m, Err(e)),
                    Ok(_) => (with_listings(m, m.listings.update(j, Listing { price: new_price, ..l })), Ok(())),
                }
            }
        },
    }
}

/// Canceling an active listing, by its seller. `cancel` is the outcome of the auction
/// house's cancel-sale call; the listing is canceled only when it reports this
/// listing's escrow (its seller, item and price) released.
pub open spec fn close_listing_spec(
    m: MarketView,
    seller: Address,
    listing: Address,
    cancel: Result<EscrowReceipt, AdapterError>,
) -> (MarketView, Result<(), RewardCenterError>) {
    match slot_of(m.listings, listing) {
        None => (m, Err(RewardCenterError::AccountNotFound)),
        Some(j) => {
            let l = m.listings[j];
            if l.seller != seller {
                (m, Err(RewardCenterError::AuthorizationError))
            } else if l.state != ListingState::Active {
                (m, Err(RewardCenterError::StateConflictError))
            } else {
                match escrow_result(cancel, l.seller, l.metadata, l.price) {
                    Err(e) => (m, Err(e)),
                    Ok(_) => (with_listings(m, m.listings.update(j, Listing { state: ListingState::Canceled, ..l })), Ok(())),
                }
            }
        },
    }
}

/// The record an offer gets when created: active at the given price.
pub open spec fn new_offer(
    address: Address, bump: u8, reward_center: Address, buyer: Address, metadata: Address,
    price: u64, token_size: u64,
) -> Offer {
    Offer { address, reward_center, buyer, metadata, price, token_size, state: OfferState::Active, bump_seed: bump }
}

/// Stores `x` at its address: over the record there, or as a new one.
pub open spec fn put_offer(s: Seq<Offer>, x: Offer) -> Seq<Offer> {
    match slot_of(s, x.address) {
        Some(j) => s.update(j, x),
        None => s.push(x),
    }
}

/// Bidding on an item, signed by the buyer: the reward center must exist, `offer`
/// must be the address derived from the buyer, the item and the reward center, and
/// no active offer may stand there. `bid` is the outcome of the auction house's bid
/// call; the offer is written only when it reports the buyer's bid on the item
/// escrowed at `price`.
pub open spec fn create_offer_spec(
    m: MarketView,
    signer: Address,
    buyer: Address,
    reward_center: Address,
    metadata: Address,
    offer: Address,
    price: u64,
    token_size: u64,
    bid: Result<EscrowReceipt, AdapterError>,
) -> (MarketView, Result<(), RewardCenterError>) {
    if signer != buyer {
        (m, Err(RewardCenterError::AuthorizationError))
    } else if slot_of(m.reward_centers, reward_center) is None {
        (m, Err(RewardCenterError::AccountNotFound))
    } else {
        match derived(offer_seeds(buyer, metadata, reward_center), m.program_id) {
            None => (m, Err(RewardCenterError::AddressMismatchError)),
            Some(d) => if d.0 != offer {
                (m, Err(RewardCenterError::AddressMismatchError))
            } else if (match slot_of(m.offers, offer) {
                Some(j) => m.offers[j].state == OfferState::Active,
                None => false,
            }) {
                (m, Err(RewardCenterError::StateConflictError))
            } else {
                match escrow_result(bid, buyer, metadata, price) {
                    Err(e) => (m, Err(e)),
                    Ok(_) => (
                        with_offers(m, put_offer(m.offers, new_offer(offer, d.1, reward_center, buyer, metadata, price, token_size))),
                        Ok(()),
                    ),
                }
            },
        }
    }
}

/// Canceling an active offer, by its buyer. `cancel` is the outcome of the auction
/// house's cancel-bid call; the offer is canceled only when it reports this offer's
/// bid (its buyer, item and price) refunded.
pub open spec fn close_offer_spec(
    m: MarketView,
    buyer: Address,
    offer: Address,
    cancel: Result<EscrowReceipt, AdapterError>,
) -> (MarketView, Result<(), RewardCenterError>) {
    match slot_of(m.offers, offer) {
        None => (m, Err(RewardCenterError::AccountNotFound)),
        Some(j) => {
            let o = m.offers[j];
            if o.buyer != buyer {
                (m, Err(RewardCenterError::AuthorizationError))
            } else if o.state != OfferState::Active {
                (m, Err(RewardCenterError::StateConflictError))
            } else {
                match escrow_result(cancel, o.buyer, o.metadata, o.price) {
                    Err(e) => (m, Err(e)),
                    Ok(_) => (with_offers(m, m.offers.update(j, Offer { state: OfferState::Canceled, ..o })), Ok(())),
                }
            }
        },
    }
}

/// What is paid out of a treasury holding `balance` for a computed payout: all of
/// it when the treasury covers both parts, else nothing. The sale stands either way.
pub open spec fn disbursed(p: RewardPayout, balance: u64) -> RewardPayout {
    if p.buyer_amount + p.seller_amount <= balance {
        p
    } else {
        RewardPayout { buyer_amount: 0, seller_amount: 0 }
    }
}

/// A reward center after paying `p` out of its treasury.
pub open spec fn after_payout(c: RewardCenter, p: RewardPayout) -> RewardCenter {
    RewardCenter { treasury_balance: (c.treasury_balance - p.buyer_amount - p.seller_amount) as u64, ..c }
}

/// The transfers that pay `p` to `buyer` and `seller`.
pub open spec fn disbursement(buyer: Address, seller: Address, p: RewardPayout) -> Disbursement {
    Disbursement {
        buyer: TokenTransfer { destination: buyer, amount: p.buyer_amount },
        seller: TokenTransfer { destination: seller, amount: p.seller_amount },
    }
}

/// Buying a listed item: the listing must belong to the reward center and be active.
/// `execute` is the outcome of the auction house's execute-sale call; the sale stands
/// only when it reports the listing's item sold by its seller to `buyer` at the
/// listing's price. The listing is then sold, and the rewards for that price are paid
/// to the buyer and the seller as `disbursed` says.
pub open spec fn buy_listing_spec(
    m: MarketView,
    buyer: Address,
    reward_center: Address,
    listing: Address,
    execute: Result<SaleReceipt, AdapterError>,
) -> (MarketView, Result<Disbursement, RewardCenterError>) {
    match slot_of(m.reward_centers, reward_center) {
        None => (m, Err(RewardCenterError::AccountNotFound)),
        Some(i) => match slot_of(m.listings, listing) {
            None => (m, Err(RewardCenterError::AccountNotFound)),
            Some(j) => {
                let c = m.reward_centers[i];
                let l = m.listings[j];
                if l.reward_center != reward_center {
                    (m, Err(RewardCenterError::AddressMismatchError))
                } else if l.state != ListingState::Active {
                    (m, Err(RewardCenterError::StateConflictError))
                } else {
                    match sale_result(execute, l.seller, buyer, l.metadata, l.price) {
                        Err(e) => (m, Err(e)),
                        Ok(_) => {
                            let p = disbursed(reward_of(l.price, c.reward_rules), c.treasury_balance);
                            (
                                MarketView {
                                    reward_centers: m.reward_centers.update(i, after_payout(c, p)),
                                    listings: m.listings.update(j, Listing { state: ListingState::Sold, ..l }),
                                    ..m
                                },
                                Ok(disbursement(buyer, l.seller, p)),
                            )
                        },
                    }
                }
            },
        },
    }
}

/// Accepting an offer on a listed item, by the listing's seller: both records must
/// belong to the reward center and name the same item, both must be active and at
/// one price. `execute` is the outcome of the auction house's execute-sale call; the
/// sale stands only when it reports the item sold by the listing's seller to the
/// offer's buyer at that price. The listing is then sold, the offer accepted, and the
/// rewards paid as in a purchase.
pub open spec fn accept_offer_spec(
    m: MarketView,
    seller: Address,
    reward_center: Address,
    listing: Address,
    offer: Address,
    execute: Result<SaleReceipt, AdapterError>,
) -> (MarketView, Result<Disbursement, RewardCenterError>) {
    match (slot_of(m.reward_centers, reward_center), slot_of(m.listings, listing), slot_of(m.offers, offer)) {
        (Some(i), Some(j), Some(k)) => {
            let c = m.reward_centers[i];
            let l = m.listings[j];
            let o = m.offers[k];
            if l.seller != seller {
                (m, Err(RewardCenterError::AuthorizationError))
            } else if l.reward_center != reward_center || o.reward_center != reward_center || l.metadata != o.metadata {
                (m, Err(RewardCenterError::AddressMismatchError))
            } else if l.state != ListingState::Active || o.state != OfferState::Active {
                (m, Err(RewardCenterError::StateConflictError))
            } else if l.price != o.price {
                (m, Err(RewardCenterError::PriceMismatch))
            } else {
                match sale_result(execute, l.seller, o.buyer, l.metadata, l.price) {
                    Err(e) => (m, Err(e)),
                    Ok(_) => {
                        let p = disbursed(reward_of(l.price, c.reward_rules), c.treasury_balance);
                        (
                            MarketView {
                                program_id: m.program_id,
                                reward_centers: m.reward_centers.update(i, after_payout(c, p)),
                                listings: m.listings.update(j, Listing { state: ListingState::Sold, ..l }),
                                offers: m.offers.update(k, Offer { state: OfferState::Accepted, ..o }),
                            },
                            Ok(disbursement(o.buyer, l.seller, p)),
                        )
                    },
                }
            }
        },
        _ => (m, Err(RewardCenterError::AccountNotFound)),
    }
}

impl Market {
    /// A market of the program `program_id` with no records.
    pub fn new(program_id: Address) -> (r: Market)
        ensures
            r@.program_id == program_id,
            r@.reward_centers.len() == 0,
            r@.listings.len() == 0,
            r@.offers.len() == 0,
            market_wf(r@),
    {
        Market { program_id, reward_centers: Vec::new(), listings: Vec::new(), offers: Vec::new() }
    }

    /// The balance of the treasury of the reward center at `reward_center`.
    pub fn treasury_balance(&self, reward_center: &Address) -> (r: Option<u64>)
        requires
            market_wf(self@),
        ensures
            r == (match slot_of(self@.reward_centers, *reward_center) {
                Some(i) => Some(self@.reward_centers[i].treasury_balance),
                None => None,
            }),
    {
        match find_record(&self.reward_centers, reward_center) {
            Some(i) => Some(self.reward_centers[i].treasury_balance),
            None => None,
        }
    }
}

/// Creates the reward center of `auction_house` and returns its address.
pub fn create_reward_center(
    market: &mut Market,
    authority: Address,
    auction_house: Address,
    token_mint: Address,
    rules: RewardRules,
) -> (r: Result<Address, RewardCenterError>)
    requires
        market_wf(old(market)@),
    ensures
        market_wf(final(market)@),
        (final(market)@, r) == create_reward_center_spec(old(market)@, authority, auction_house, token_mint, rules),
{
    if !validate_rules(&rules) {
        return Err(RewardCenterError::ConfigurationError);
    }
    let (rc, bump) = match find_reward_center_address(&market.program_id, &auction_house) {
        None => return Err(RewardCenterError::AddressMismatchError),
        Some(p) => p,
    };
    let (treasury, _) = match find_treasury_address(&market.program_id, &rc, &token_mint) {
        None => return Err(RewardCenterError::AddressMismatchError),
        Some(p) => p,
    };
    if find_record(&market.reward_centers, &rc).is_some() {
        return Err(RewardCenterError::StateConflictError);
    }
    let c = RewardCenter {
        address: rc,
        authority,
        auction_house,
        token_mint,
        reward_rules: rules,
        treasury_address: treasury,
        treasury_balance: 0,
        bump_seed: bump,
    };
    proof {
        lemma_push_keeps_keys(old(market)@.reward_centers, c);
    }
    market.reward_centers.push(c);
    Ok(rc)
}

/// Replaces the rules of a reward center; only its authority may.
pub fn edit_reward_center(
    market: &mut Market,
    caller: Address,
    reward_center: Address,
    rules: RewardRules,
) -> (r: Result<(), RewardCenterError>)
    requires
        market_wf(old(market)@),
    ensures
        market_wf(final(market)@),
        (final(market)@, r) == edit_reward_center_spec(old(market)@, caller, reward_center, rules),
{
    let i = match find_record(&market.reward_centers, &reward_center) {
        None => return Err(RewardCenterError::AccountNotFound),
        Some(i) => i,
    };
    let c = market.reward_centers[i];
    if !same_address(&c.authority, &caller) {
        return Err(RewardCenterError::AuthorizationError);
    }
    if !validate_rules(&rules) {
        return Err(RewardCenterError::ConfigurationError);
    }
    let c2 = RewardCenter { reward_rules: rules, ..c };
    proof {
        lemma_update_keeps_keys(old(market)@.reward_centers, i as int, c2);
    }
    market.reward_centers.set(i, c2);
    Ok(())
}

/// Takes `amount` reward tokens out of a treasury and sends them to `destination`;
/// only the authority may, and only what the treasury holds.
pub fn withdraw_reward_center_funds(
    market: &mut Market,
    caller: Address,
    reward_center: Address,
    amount: u64,
    destination: Address,
) -> (r: Result<TokenTransfer, RewardCenterError>)
    requires
        market_wf(old(market)@),
    ensures
        market_wf(final(market)@),
        (final(market)@, r) == withdraw_spec(old(market)@, caller, reward_center, amount, destination),
{
    let i = match find_record(&market.reward_centers, &reward_center) {
        None => return Err(RewardCenterError::AccountNotFound),
        Some(i) => i,
    };
    let c = market.reward_centers[i];
    if !same_address(&c.authority, &caller) {
        return Err(RewardCenterError::AuthorizationError);
    }
    if amount > c.treasury_balance {
        return Err(RewardCenterError::InsufficientFundsError);
    }
    let c2 = RewardCenter { treasury_balance: c.treasury_balance - amount, ..c };
    proof {
        lemma_update_keeps_keys(old(market)@.reward_centers, i as int, c2);
    }
    market.reward_centers.set(i, c2);
    Ok(TokenTransfer { destination, amount })
}

/// Pays `amount` reward tokens into a treasury.
pub fn fund_treasury(
    market: &mut Market,
    reward_center: Address,
    amount: u64,
) -> (r: Result<(), RewardCenterError>)
    requires
        market_wf(old(market)@),
    ensures
        market_wf(final(market)@),
        (final(market)@, r) == fund_treasury_spec(old(market)@, reward_center, amount),
{
    let i = match find_record(&market.reward_centers, &reward_center) {
        None => return Err(RewardCenterError::AccountNotFound),
        Some(i) => i,
    };
    let c = market.reward_centers[i];
    let balance = match c.treasury_balance.checked_add(amount) {
        None => return Err(RewardCenterError::BalanceOverflow),
        Some(b) => b,
    };
    let c2 = RewardCenter { treasury_balance: balance, ..c };
    proof {
        lemma_update_keeps_keys(old(market)@.reward_centers, i as int, c2);
    }
    market.reward_centers.set(i, c2);
    Ok(())
}

/// Stores a listing at its address, over a finished record there or as a new one.
fn put_listing_exec(v: &mut Vec<Listing>, x: Listing)
    requires
        unique_keys(old(v)@),
    ensures
        final(v)@ == put_listing(old(v)@, x),
        unique_keys(final(v)@),
{
    match find_record(v, &x.address) {
        Some(j) => {
            proof {
                lemma_update_keeps_keys(old(v)@, j as int, x);
            }
            v.set(j, x);
        },
        None => {
            proof {
                lemma_push_keeps_keys(old(v)@, x);
            }
            v.push(x);
        },
    }
}

/// Lists an item for sale under a reward center; `signer` must be the seller.
pub fn create_listing(
    market: &mut Market,
    signer: Address,
    seller: Address,
    reward_center: Address,
    metadata: Address,
    listing: Address,
    price: u64,
    token_size: u64,
    sell: Result<EscrowReceipt, AdapterError>,
) -> (r: Result<(), RewardCenterError>)
    requires
        market_wf(old(market)@),
    ensures
        market_wf(final(market)@),
        (final(market)@, r) == create_listing_spec(old(market)@, signer, seller, reward_center, metadata, listing, price, token_size, sell),
{
    if !same_address(&signer, &seller) {
        return Err(RewardCenterError::AuthorizationError);
    }
    if find_record(&market.reward_centers, &reward_center).is_none() {
        return Err(RewardCenterError::AccountNotFound);
    }
    let (derived_address, bump) = match find_listing_address(&market.program_id, &seller, &metadata, &reward_center) {
        None => return Err(RewardCenterError::AddressMismatchError),
        Some(p) => p,
    };
    if !same_address(&derived_address, &listing) {
        return Err(RewardCenterError::AddressMismatchError);
    }
    match find_record(&market.listings, &listing) {
        Some(j) => {
            if market.listings[j].state == ListingState::Active {
                return Err(RewardCenterError::StateConflictError);
            }
        },
        None => {},
    }
    if let Err(e) = check_escrow(&sell, &seller, &metadata, price) {
        return Err(e);
    }
    let x = Listing {
        address: listing,
        reward_center,
        seller,
        metadata,
        price,
        token_size,
        state: ListingState::Active,
        bump_seed: bump,
    };
    put_listing_exec(&mut market.listings, x);
    Ok(())
}

/// Changes the price of an active listing; only its seller may.
pub fn update_listing(
    market: &mut Market,
    seller: Address,
    listing: Address,
    new_price: u64,
    reprice: Result<EscrowReceipt, AdapterError>,
) -> (r: Result<(), RewardCenterError>)
    requires
        market_wf(old(market)@),
    ensures
        market_wf(final(market)@),
        (final(market)@, r) == update_listing_spec(old(market)@, seller, listing, new_price, reprice),
{
    let j = match find_record(&market.listings, &listing) {
        None => return Err(RewardCenterError::AccountNotFound),
        Some(j) => j,
    };
    let l = market.listings[j];
    if !same_address(&l.seller, &seller) {
        return Err(RewardCenterError::AuthorizationError);
    }
    if l.state != ListingState::Active {
        return Err(RewardCenterError::StateConflictError);
    }
    if let Err(e) = check_escrow(&reprice, &l.seller, &l.metadata, new_price) {
        return Err(e);
    }
    let l2 = Listing { price: new_price, ..l };
    proof {
        lemma_update_keeps_keys(old(market)@.listings, j as int, l2);
    }
    market.listings.set(j, l2);
    Ok(())
}

/// Cancels an active listing; only its seller may.
pub fn close_listing(
    market: &mut Market,
    seller: Address,
    listing: Address,
    cancel: Result<EscrowReceipt, AdapterError>,
) -> (r: Result<(), RewardCenterError>)
    requires
        market_wf(old(market)@),
    ensures
        market_wf(final(market)@),
        (final(market)@, r) == close_listing_spec(old(market)@, seller, listing, cancel),
{
    let j = match find_record(&market.listings, &listing) {
        None => return Err(RewardCenterError::AccountNotFound),
        Some(j) => j,
    };
    let l = market.listings[j];
    if !same_address(&l.seller, &seller) {
        return Err(RewardCenterError::AuthorizationError);
    }
    if l.state != ListingState::Active {
        return Err(RewardCenterError::StateConflictError);
    }
    if let Err(e) = check_escrow(&cancel, &l.seller, &l.metadata, l.price) {
        return Err(e);
    }
    let l2 = Listing { state: ListingState::Canceled, ..l };
    proof {
        lemma_update_keeps_keys(old(market)@.listings, j as int, l2);
    }
    market.listings.set(j, l2);
    Ok(())
}

/// Stores an offer at its address, over a finished record there or as a new one.
fn put_offer_exec(v: &mut Vec<Offer>, x: Offer)
    requires
        unique_keys(old(v)@),
    ensures
        final(v)@ == put_offer(old(v)@, x),
        unique_keys(final(v)@),
{
    match find_record(v, &x.address) {
        Some(j) => {
            proof {
                lemma_update_keeps_keys(old(v)@, j as int, x);
            }
            v.set(j, x);
        },
        None => {
            proof {
                lemma_push_keeps_keys(old(v)@, x);
            }
            v.push(x);
        },
    }
}

/// Places a bid on an item under a reward center; `signer` must be the buyer.
pub fn create_offer(
    market: &mut Market,
    signer: Address,
    buyer: Address,
    reward_center: Address,
    metadata: Address,
    offer: Address,
    price: u64,
    token_size: u64,
    bid: Result<EscrowReceipt, AdapterError>,
) -> (r: Result<(), RewardCenterError>)
    requires
        market_wf(old(market)@),
    ensures
        market_wf(final(market)@),
        (final(market)@, r) == create_offer_spec(old(market)@, signer, buyer, reward_center, metadata, offer, price, token_size, bid),
{
    if !same_address(&signer, &buyer) {
        return Err(RewardCenterError::AuthorizationError);
    }
    if find_record(&market.reward_centers, &reward_center).is_none() {
        return Err(RewardCenterError::AccountNotFound);
    }
    let (derived_address, bump) = match find_offer_address(&market.program_id, &buyer, &metadata, &reward_center) {
        None => return Err(RewardCenterError::AddressMismatchError),
        Some(p) => p,
    };
    if !same_address(&derived_address, &offer) {
        return Err(RewardCenterError::AddressMismatchError);
    }
    match find_record(&market.offers, &offer) {
        Some(j) => {
            if market.offers[j].state == OfferState::Active {
                return Err(RewardCenterError::StateConflictError);
            }
        },
        None => {},
    }
    if let Err(e) = check_escrow(&bid, &buyer, &metadata, price) {
        return Err(e);
    }
    let x = Offer {
        address: offer,
        reward_center,
        buyer,
        metadata,
        price,
        token_size,
        state: OfferState::Active,
        bump_seed: bump,
    };
    put_offer_exec(&mut market.offers, x);
    Ok(())
}

/// Cancels an active offer; only its buyer may.
pub fn close_offer(
    market: &mut Market,
    buyer: Address,
    offer: Address,
    cancel: Result<EscrowReceipt, AdapterError>,
) -> (r: Result<(), RewardCenterError>)
    requires
        market_wf(old(market)@),
    ensures
        market_wf(final(market)@),
        (final(market)@, r) == close_offer_spec(old(market)@, buyer, offer, cancel),
{
    let k = match find_record(&market.offers, &offer) {
        None => return Err(RewardCenterError::AccountNotFound),
        Some(k) => k,
    };
    let o = market.offers[k];
    if !same_address(&o.buyer, &buyer) {
        return Err(RewardCenterError::AuthorizationError);
    }
    if o.state != OfferState::Active {
        return Err(RewardCenterError::StateConflictError);
    }
    if let Err(e) = check_escrow(&cancel, &o.buyer, &o.metadata, o.price) {
        return Err(e);
    }
    let o2 = Offer { state: OfferState::Canceled, ..o };
    proof {
        lemma_update_keeps_keys(old(market)@.offers, k as int, o2);
    }
    market.offers.set(k, o2);
    Ok(())
}

/// Computes the rewards of a sale at `price` and takes them out of the treasury of
/// the reward center at position `i`, or pays nothing when it cannot cover them.
fn pay_rewards(centers: &mut Vec<RewardCenter>, i: usize, price: u64) -> (p: RewardPayout)
    requires
        i < old(centers)@.len(),
        unique_keys(old(centers)@),
        valid_rules(old(centers)@[i as int].reward_rules),
    ensures
        p == disbursed(reward_of(price, old(centers)@[i as int].reward_rules), old(centers)@[i as int].treasury_balance),
        final(centers)@ == old(centers)@.update(i as int, after_payout(old(centers)@[i as int], p)),
        unique_keys(final(centers)@),
{
    let c = centers[i];
    let computed = compute_reward(price, &c.reward_rules);
    let total = computed.buyer_amount + computed.seller_amount;
    let p = if total <= c.treasury_balance {
        computed
    } else {
        RewardPayout { buyer_amount: 0, seller_amount: 0 }
    };
    let c2 = RewardCenter { treasury_balance: c.treasury_balance - p.buyer_amount - p.seller_amount, ..c };
    proof {
        lemma_update_keeps_keys(old(centers)@, i as int, c2);
    }
    centers.set(i, c2);
    p
}

/// Buys a listed item for `buyer`: settles the sale and pays the rewards, all or
/// nothing.
pub fn buy_listing(
    market: &mut Market,
    buyer: Address,
    reward_center: Address,
    listing: Address,
    execute: Result<SaleReceipt, AdapterError>,
) -> (r: Result<Disbursement, RewardCenterError>)
    requires
        market_wf(old(market)@),
    ensures
        market_wf(final(market)@),
        (final(market)@, r) == buy_listing_spec(old(market)@, buyer, reward_center, listing, execute),
{
    let i = match find_record(&market.reward_centers, &reward_center) {
        None => return Err(RewardCenterError::AccountNotFound),
        Some(i) => i,
    };
    let j = match find_record(&market.listings, &listing) {
        None => return Err(RewardCenterError::AccountNotFound),
        Some(j) => j,
    };
    let l = market.listings[j];
    if !same_address(&l.reward_center, &reward_center) {
        return Err(RewardCenterError::AddressMismatchError);
    }
    if l.state != ListingState::Active {
        return Err(RewardCenterError::StateConflictError);
    }
    if let Err(e) = check_sale(&execute, &l.seller, &buyer, &l.metadata, l.price) {
        return Err(e);
    }
    let l2 = Listing { state: ListingState::Sold, ..l };
    proof {
        lemma_update_keeps_keys(old(market)@.listings, j as int, l2);
        assert(valid_rules(old(market)@.reward_centers[i as int].reward_rules));
    }
    market.listings.set(j, l2);
    let p = pay_rewards(&mut market.reward_centers, i, l.price);
    Ok(Disbursement {
        buyer: TokenTransfer { destination: buyer, amount: p.buyer_amount },
        seller: TokenTransfer { destination: l.seller, amount: p.seller_amount },
    })
}

/// Accepts an offer on a listed item: settles the sale and pays the rewards, all or
/// nothing.
pub fn accept_offer(
    market: &mut Market,
    seller: Address,
    reward_center: Address,
    listing: Address,
    offer: Address,
    execute: Result<SaleReceipt, AdapterError>,
) -> (r: Result<Disbursement, RewardCenterError>)
    requires
        market_wf(old(market)@),
    ensures
        market_wf(final(market)@),
        (final(market)@, r) == accept_offer_spec(old(market)@, seller, reward_center, listing, offer, execute),
{
    let i = match find_record(&market.reward_centers, &reward_center) {
        None => return Err(RewardCenterError::AccountNotFound),
        Some(i) => i,
    };
    let j = match find_record(&market.listings, &listing) {
        None => return Err(RewardCenterError::AccountNotFound),
        Some(j) => j,
    };
    let k = match find_record(&market.offers, &offer) {
        None => return Err(RewardCenterError::AccountNotFound),
        Some(k) => k,
    };
    let l = market.listings[j];
    let o = market.offers[k];
    if !same_address(&l.seller, &seller) {
        return Err(RewardCenterError::AuthorizationError);
    }
    if !same_address(&l.reward_center, &reward_center) || !same_address(&o.reward_center, &reward_center)
        || !same_address(&l.metadata, &o.metadata) {
        return Err(RewardCenterError::AddressMismatchError);
    }
    if l.state != ListingState::Active || o.state != OfferState::Active {
        return Err(RewardCenterError::StateConflictError);
    }
    if l.price != o.price {
        return Err(RewardCenterError::PriceMismatch);
    }
    if let Err(e) = check_sale(&execute, &l.seller, &o.buyer, &l.metadata, l.price) {
        return Err(e);
    }
    let l2 = Listing { state: ListingState::Sold, ..l };
    let o2 = Offer { state: OfferState::Accepted, ..o };
    proof {
        lemma_update_keeps_keys(old(market)@.listings, j as int, l2);
        lemma_update_keeps_keys(old(market)@.offers, k as int, o2);
        assert(valid_rules(old(market)@.reward_centers[i as int].reward_rules));
    }
    market.listings.set(j, l2);
    market.offers.set(k, o2);
    let p = pay_rewards(&mut market.reward_centers, i, l.price);
    Ok(Disbursement {
        buyer: TokenTransfer { destination: o.buyer, amount: p.buyer_amount },
        seller: TokenTransfer { destination: l.seller, amount: p.seller_amount },
    })
}

} // verus!
