use vstd::prelude::*;
use crate::address::Address;
use crate::market::{
    accept_offer_spec, buy_listing_spec, close_listing_spec, close_offer_spec, create_listing_spec,
    create_offer_spec, create_reward_center_spec, edit_reward_center_spec, fund_treasury_spec,
    market_wf, update_listing_spec, withdraw_spec, MarketView,
};
use crate::market::disbursement;
use crate::records::{
    lemma_update_keeps_keys, slot_of, AdapterError, Disbursement, EscrowReceipt, Listing, ListingState,
    OfferState, RewardCenterError, SaleReceipt, TokenTransfer,
};
use crate::rules::{
    lemma_share_within_pool, reward_of, reward_pool, seller_share, valid_rules, RewardRules,
};

verus! {

/// For valid rules the payout is a function of the price and the rules, its parts
/// add up to the pool, which fits in a `u64`, and the seller's part is exactly
/// `pool * bps / 10_000`.
pub proof fn lemma_reward_split(price: u64, rules: RewardRules)
    requires
        valid_rules(rules),
    ensures
        0 <= reward_pool(price, rules) <= u64::MAX,
        reward_of(price, rules).seller_amount == seller_share(reward_pool(price, rules), rules.seller_reward_payout_basis_points),
        reward_of(price, rules).buyer_amount + reward_of(price, rules).seller_amount == reward_pool(price, rules),
{
    let pool = reward_pool(price, rules);
    if rules.mathematical_operand is Divide {
        assert(0 <= price as int / rules.payout_numeral as int <= price) by (nonlinear_arith)
            requires
                rules.payout_numeral >= 1,
        ;
    } else {
        assert(0 <= price as int * rules.payout_numeral as int) by (nonlinear_arith);
    }
    lemma_share_within_pool(pool, rules.seller_reward_payout_basis_points);
}

/// A reward center whose seller share exceeds the whole pool is refused as
/// misconfigured and nothing changes; one within the whole, with a non-zero
/// numeral, is never refused as misconfigured.
pub proof fn lemma_create_checks_basis_points(
    m: MarketView,
    authority: Address,
    auction_house: Address,
    token_mint: Address,
    rules: RewardRules,
)
    ensures
        rules.seller_reward_payout_basis_points > 10000 ==> create_reward_center_spec(m, authority, auction_house, token_mint, rules)
            == (m, Err::<Address, RewardCenterError>(RewardCenterError::ConfigurationError)),
        rules.seller_reward_payout_basis_points <= 10000 && rules.payout_numeral != 0
            ==> create_reward_center_spec(m, authority, auction_house, token_mint, rules).1 != Err::<Address, RewardCenterError>(RewardCenterError::ConfigurationError),
{
}

/// A listing that is not active can be neither repriced nor closed by its seller:
/// both are refused as a state conflict and nothing changes.
pub proof fn lemma_inactive_listing_is_final(
    m: MarketView,
    seller: Address,
    listing: Address,
    new_price: u64,
    reprice: Result<EscrowReceipt, AdapterError>,
    cancel: Result<EscrowReceipt, AdapterError>,
)
    requires
        slot_of(m.listings, listing) matches Some(j) && m.listings[j].seller == seller
            && m.listings[j].state != ListingState::Active,
    ensures
        update_listing_spec(m, seller, listing, new_price, reprice) == (m, Err::<(), RewardCenterError>(RewardCenterError::StateConflictError)),
        close_listing_spec(m, seller, listing, cancel) == (m, Err::<(), RewardCenterError>(RewardCenterError::StateConflictError)),
{
}

/// Closing a listing twice: the second close is refused as a state conflict and
/// leaves the first one's result as it was.
pub proof fn lemma_close_listing_twice(
    m: MarketView,
    seller: Address,
    listing: Address,
    first: Result<EscrowReceipt, AdapterError>,
    second: Result<EscrowReceipt, AdapterError>,
)
    requires
        market_wf(m),
        close_listing_spec(m, seller, listing, first).1 is Ok,
    ensures
        close_listing_spec(close_listing_spec(m, seller, listing, first).0, seller, listing, second)
            == (close_listing_spec(m, seller, listing, first).0, Err::<(), RewardCenterError>(RewardCenterError::StateConflictError)),
{
    let j = slot_of(m.listings, listing)->Some_0;
    let l = m.listings[j];
    let l2 = Listing { state: ListingState::Canceled, ..l };
    lemma_update_keeps_keys(m.listings, j, l2);
    assert(m.listings[j].address == listing);
}

/// A sale that the auction house refuses changes nothing: no record and no treasury
/// balance moves, whether a listing is bought or an offer accepted.
pub proof fn lemma_refused_sale_changes_nothing(
    m: MarketView,
    buyer: Address,
    seller: Address,
    reward_center: Address,
    listing: Address,
    offer: Address,
    e: AdapterError,
)
    ensures
        buy_listing_spec(m, buyer, reward_center, listing, Err(e)).0 == m,
        buy_listing_spec(m, buyer, reward_center, listing, Err(e)).1 is Err,
        accept_offer_spec(m, seller, reward_center, listing, offer, Err(e)).0 == m,
        accept_offer_spec(m, seller, reward_center, listing, offer, Err(e)).1 is Err,
{
}

/// Where a purchase would otherwise go ahead, the auction house's refusal is passed
/// on as it came and nothing changes.
pub proof fn lemma_refused_purchase_passed_on(
    m: MarketView,
    buyer: Address,
    reward_center: Address,
    listing: Address,
    e: AdapterError,
)
    requires
        slot_of(m.reward_centers, reward_center) is Some,
        slot_of(m.listings, listing) matches Some(j) && m.listings[j].reward_center == reward_center
            && m.listings[j].state == ListingState::Active,
    ensures
        buy_listing_spec(m, buyer, reward_center, listing, Err(e))
            == (m, Err::<Disbursement, RewardCenterError>(RewardCenterError::AdapterError(e))),
{
}

/// Where accepting an offer would otherwise go ahead, the auction house's refusal is
/// passed on as it came and nothing changes.
pub proof fn lemma_refused_acceptance_passed_on(
    m: MarketView,
    seller: Address,
    reward_center: Address,
    listing: Address,
    offer: Address,
    e: AdapterError,
)
    requires
        slot_of(m.reward_centers, reward_center) is Some,
        slot_of(m.listings, listing) matches Some(j) && m.listings[j].seller == seller
            && m.listings[j].reward_center == reward_center && m.listings[j].state == ListingState::Active,
        slot_of(m.offers, offer) matches Some(k) && m.offers[k].reward_center == reward_center
            && m.offers[k].state == OfferState::Active,
        m.listings[slot_of(m.listings, listing)->Some_0].metadata == m.offers[slot_of(m.offers, offer)->Some_0].metadata,
        m.listings[slot_of(m.listings, listing)->Some_0].price == m.offers[slot_of(m.offers, offer)->Some_0].price,
    ensures
        accept_offer_spec(m, seller, reward_center, listing, offer, Err(e))
            == (m, Err::<Disbursement, RewardCenterError>(RewardCenterError::AdapterError(e))),
{
}

/// A purchase whose sale the auction house executed as asked, from a treasury that
/// covers the pool, pays the buyer and the seller exactly what the rules give: the
/// seller `pool * bps / 10_000` and the buyer the rest.
pub proof fn lemma_purchase_pays_rules(
    m: MarketView,
    buyer: Address,
    reward_center: Address,
    listing: Address,
    receipt: SaleReceipt,
)
    requires
        market_wf(m),
        slot_of(m.reward_centers, reward_center) matches Some(i)
            && m.reward_centers[i].treasury_balance >= reward_pool(
                m.listings[slot_of(m.listings, listing)->Some_0].price,
                m.reward_centers[i].reward_rules,
            ),
        slot_of(m.listings, listing) matches Some(j) && m.listings[j].reward_center == reward_center
            && m.listings[j].state == ListingState::Active
            && receipt.seller == m.listings[j].seller && receipt.buyer == buyer
            && receipt.metadata == m.listings[j].metadata && receipt.price_paid == m.listings[j].price,
    ensures
        ({
            let c = m.reward_centers[slot_of(m.reward_centers, reward_center)->Some_0];
            let l = m.listings[slot_of(m.listings, listing)->Some_0];
            let pool = reward_pool(l.price, c.reward_rules);
            let seller_amount = seller_share(pool, c.reward_rules.seller_reward_payout_basis_points);
            buy_listing_spec(m, buyer, reward_center, listing, Ok(receipt)).1 == Ok::<Disbursement, RewardCenterError>(
                disbursement(buyer, l.seller, reward_of(l.price, c.reward_rules)),
            ) && seller_amount == reward_of(l.price, c.reward_rules).seller_amount
              && pool - seller_amount == reward_of(l.price, c.reward_rules).buyer_amount
        }),
{
    let i = slot_of(m.reward_centers, reward_center)->Some_0;
    let l = m.listings[slot_of(m.listings, listing)->Some_0];
    assert(valid_rules(m.reward_centers[i].reward_rules));
    lemma_reward_split(l.price, m.reward_centers[i].reward_rules);
}

/// Every refused operation leaves the market exactly as it was: no record, state or
/// treasury balance changes.
pub proof fn lemma_refusal_changes_nothing(
    m: MarketView,
    caller: Address,
    counterparty: Address,
    auction_house: Address,
    token_mint: Address,
    reward_center: Address,
    metadata: Address,
    listing: Address,
    offer: Address,
    rules: RewardRules,
    amount: u64,
    token_size: u64,
    escrow: Result<EscrowReceipt, AdapterError>,
    sale: Result<SaleReceipt, AdapterError>,
)
    ensures
        create_reward_center_spec(m, caller, auction_house, token_mint, rules).1 is Err
            ==> create_reward_center_spec(m, caller, auction_house, token_mint, rules).0 == m,
        edit_reward_center_spec(m, caller, reward_center, rules).1 is Err
            ==> edit_reward_center_spec(m, caller, reward_center, rules).0 == m,
        withdraw_spec(m, caller, reward_center, amount, counterparty).1 is Err
            ==> withdraw_spec(m, caller, reward_center, amount, counterparty).0 == m,
        fund_treasury_spec(m, reward_center, amount).1 is Err ==> fund_treasury_spec(m, reward_center, amount).0 == m,
        create_listing_spec(m, caller, counterparty, reward_center, metadata, listing, amount, token_size, escrow).1 is Err
            ==> create_listing_spec(m, caller, counterparty, reward_center, metadata, listing, amount, token_size, escrow).0 == m,
        update_listing_spec(m, caller, listing, amount, escrow).1 is Err
            ==> update_listing_spec(m, caller, listing, amount, escrow).0 == m,
        close_listing_spec(m, caller, listing, escrow).1 is Err ==> close_listing_spec(m, caller, listing, escrow).0 == m,
        create_offer_spec(m, caller, counterparty, reward_center, metadata, offer, amount, token_size, escrow).1 is Err
            ==> create_offer_spec(m, caller, counterparty, reward_center, metadata, offer, amount, token_size, escrow).0 == m,
        close_offer_spec(m, counterparty, offer, escrow).1 is Err ==> close_offer_spec(m, counterparty, offer, escrow).0 == m,
        buy_listing_spec(m, counterparty, reward_center, listing, sale).1 is Err
            ==> buy_listing_spec(m, counterparty, reward_center, listing, sale).0 == m,
        accept_offer_spec(m, caller, reward_center, listing, offer, sale).1 is Err
            ==> accept_offer_spec(m, caller, reward_center, listing, offer, sale).0 == m,
{
}

/// Withdrawing more than a treasury holds is refused as insufficient funds and the
/// balance stays as it was.
pub proof fn lemma_overdraw_refused(
    m: MarketView,
    caller: Address,
    reward_center: Address,
    amount: u64,
    destination: Address,
)
    requires
        slot_of(m.reward_centers, reward_center) matches Some(i) && m.reward_centers[i].authority == caller
            && amount > m.reward_centers[i].treasury_balance,
    ensures
        withdraw_spec(m, caller, reward_center, amount, destination)
            == (m, Err::<TokenTransfer, RewardCenterError>(RewardCenterError::InsufficientFundsError)),
{
}

/// Of two purchases of one listing, one after the other, at most the first succeeds:
/// once it has, the listing is sold and the second is refused as a state conflict.
pub proof fn lemma_second_purchase_conflicts(
    m: MarketView,
    reward_center: Address,
    listing: Address,
    first_buyer: Address,
    first: Result<SaleReceipt, AdapterError>,
    second_buyer: Address,
    second: Result<SaleReceipt, AdapterError>,
)
    requires
        market_wf(m),
        buy_listing_spec(m, first_buyer, reward_center, listing, first).1 is Ok,
    ensures
        buy_listing_spec(buy_listing_spec(m, first_buyer, reward_center, listing, first).0, second_buyer, reward_center, listing, second)
            == (buy_listing_spec(m, first_buyer, reward_center, listing, first).0, Err::<Disbursement, RewardCenterError>(RewardCenterError::StateConflictError)),
{
    let i = slot_of(m.reward_centers, reward_center)->Some_0;
    let j = slot_of(m.listings, listing)->Some_0;
    let m2 = buy_listing_spec(m, first_buyer, reward_center, listing, first).0;
    let c2 = m2.reward_centers[i];
    let l2 = m2.listings[j];
    lemma_update_keeps_keys(m.listings, j, l2);
    lemma_update_keeps_keys(m.reward_centers, i, c2);
    assert(m.listings[j].address == listing);
    assert(m.reward_centers[i].address == reward_center);
}

} // verus!
