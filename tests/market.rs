use reward_center::address::{find_listing_address, find_offer_address, find_reward_center_address, Address};
use reward_center::market::{
    accept_offer, buy_listing, close_listing, close_offer, create_listing, create_offer,
    create_reward_center, edit_reward_center, fund_treasury, update_listing,
    withdraw_reward_center_funds, Market,
};
use reward_center::records::{
    AdapterError, Disbursement, EscrowReceipt, ListingState, OfferState, RewardCenterError, SaleReceipt,
    TokenTransfer,
};
use reward_center::rules::{PayoutOperation, RewardRules};
use solana_program::pubkey::Pubkey;

fn addr(n: u8) -> Address {
    Address { bytes: [n; 32] }
}

const PROGRAM: u8 = 1;
const AUTHORITY: u8 = 2;
const AUCTION_HOUSE: u8 = 3;
const MINT: u8 = 4;
const SELLER: u8 = 5;
const BUYER: u8 = 6;
const ITEM: u8 = 7;
const DEST: u8 = 8;

fn divide_rules(bps: u16) -> RewardRules {
    RewardRules { mathematical_operand: PayoutOperation::Divide, payout_numeral: 5, seller_reward_payout_basis_points: bps }
}

fn same(a: &Address, b: &Address) -> bool {
    a.bytes == b.bytes
}

/// A market with one reward center holding `funds` in its treasury.
fn setup(funds: u64) -> (Market, Address) {
    let mut m = Market::new(addr(PROGRAM));
    let rc = create_reward_center(&mut m, addr(AUTHORITY), addr(AUCTION_HOUSE), addr(MINT), divide_rules(1000)).unwrap();
    if funds > 0 {
        fund_treasury(&mut m, rc, funds).unwrap();
    }
    (m, rc)
}

fn listing_of(m: &Market, rc: &Address) -> Address {
    find_listing_address(&m.program_id, &addr(SELLER), &addr(ITEM), rc).unwrap().0
}

fn offer_of(m: &Market, rc: &Address) -> Address {
    find_offer_address(&m.program_id, &addr(BUYER), &addr(ITEM), rc).unwrap().0
}

/// What the auction house reports having escrowed for `owner`'s item at `price`.
fn escrowed(owner: u8, price: u64) -> Result<EscrowReceipt, AdapterError> {
    Ok(EscrowReceipt { owner: addr(owner), metadata: addr(ITEM), price })
}

/// What the auction house reports of the item sold by the seller to `buyer`.
fn sold(buyer: u8, price: u64) -> Result<SaleReceipt, AdapterError> {
    Ok(SaleReceipt { seller: addr(SELLER), buyer: addr(buyer), metadata: addr(ITEM), price_paid: price })
}

fn paid(buyer_amount: u64, seller_amount: u64) -> Disbursement {
    Disbursement {
        buyer: TokenTransfer { destination: addr(BUYER), amount: buyer_amount },
        seller: TokenTransfer { destination: addr(SELLER), amount: seller_amount },
    }
}

fn listed(funds: u64, price: u64) -> (Market, Address, Address) {
    let (mut m, rc) = setup(funds);
    let l = listing_of(&m, &rc);
    create_listing(&mut m, addr(SELLER), addr(SELLER), rc, addr(ITEM), l, price, 1, escrowed(SELLER, price)).unwrap();
    (m, rc, l)
}

fn listing_state(m: &Market, l: &Address) -> ListingState {
    m.listings.iter().find(|x| same(&x.address, l)).unwrap().state
}

#[test]
fn derived_addresses_come_from_the_seeds() {
    let program = Pubkey::new_from_array([PROGRAM; 32]);
    let (expected, bump) = Pubkey::find_program_address(&[b"reward_center", &[AUCTION_HOUSE; 32]], &program);
    let (got, got_bump) = find_reward_center_address(&addr(PROGRAM), &addr(AUCTION_HOUSE)).unwrap();
    assert_eq!(got.bytes, expected.to_bytes());
    assert_eq!(got_bump, bump);
    assert_ne!(got.bytes, [AUCTION_HOUSE; 32]);
    let (listing, _) = find_listing_address(&addr(PROGRAM), &addr(SELLER), &addr(ITEM), &got).unwrap();
    let (expected_listing, _) = Pubkey::find_program_address(
        &[b"listing", &[SELLER; 32], &[ITEM; 32], &got.bytes],
        &program,
    );
    assert_eq!(listing.bytes, expected_listing.to_bytes());
    let (offer, _) = find_offer_address(&addr(PROGRAM), &addr(SELLER), &addr(ITEM), &got).unwrap();
    assert_ne!(offer.bytes, listing.bytes);
}

#[test]
fn create_reward_center_checks_basis_points() {
    let mut m = Market::new(addr(PROGRAM));
    assert_eq!(
        create_reward_center(&mut m, addr(AUTHORITY), addr(AUCTION_HOUSE), addr(MINT), divide_rules(10_001)),
        Err(RewardCenterError::ConfigurationError)
    );
    assert!(m.reward_centers.is_empty());
    assert!(create_reward_center(&mut m, addr(AUTHORITY), addr(AUCTION_HOUSE), addr(MINT), divide_rules(10_000)).is_ok());
    assert_eq!(m.reward_centers.len(), 1);
}

#[test]
fn create_reward_center_rejects_zero_numeral() {
    let mut m = Market::new(addr(PROGRAM));
    let rules = RewardRules { mathematical_operand: PayoutOperation::Multiply, payout_numeral: 0, seller_reward_payout_basis_points: 10 };
    assert_eq!(
        create_reward_center(&mut m, addr(AUTHORITY), addr(AUCTION_HOUSE), addr(MINT), rules),
        Err(RewardCenterError::ConfigurationError)
    );
}

#[test]
fn second_reward_center_for_auction_house_conflicts() {
    let (mut m, _) = setup(0);
    assert_eq!(
        create_reward_center(&mut m, addr(AUTHORITY), addr(AUCTION_HOUSE), addr(MINT), divide_rules(1000)),
        Err(RewardCenterError::StateConflictError)
    );
    assert_eq!(m.reward_centers.len(), 1);
}

#[test]
fn edit_reward_center_by_authority_only() {
    let (mut m, rc) = setup(0);
    assert_eq!(edit_reward_center(&mut m, addr(SELLER), rc, divide_rules(5)), Err(RewardCenterError::AuthorizationError));
    assert_eq!(edit_reward_center(&mut m, addr(AUTHORITY), rc, divide_rules(20_000)), Err(RewardCenterError::ConfigurationError));
    assert_eq!(edit_reward_center(&mut m, addr(AUTHORITY), addr(99), divide_rules(5)), Err(RewardCenterError::AccountNotFound));
    assert_eq!(edit_reward_center(&mut m, addr(AUTHORITY), rc, divide_rules(5)), Ok(()));
    assert_eq!(m.reward_centers[0].reward_rules, divide_rules(5));
}

#[test]
fn withdraw_more_than_treasury_fails() {
    let (mut m, rc) = setup(100);
    assert_eq!(withdraw_reward_center_funds(&mut m, addr(AUTHORITY), rc, 101, addr(DEST)), Err(RewardCenterError::InsufficientFundsError));
    assert_eq!(m.treasury_balance(&rc), Some(100));
    assert_eq!(withdraw_reward_center_funds(&mut m, addr(SELLER), rc, 10, addr(DEST)), Err(RewardCenterError::AuthorizationError));
    assert_eq!(
        withdraw_reward_center_funds(&mut m, addr(AUTHORITY), rc, 100, addr(DEST)),
        Ok(TokenTransfer { destination: addr(DEST), amount: 100 })
    );
    assert_eq!(m.treasury_balance(&rc), Some(0));
}

#[test]
fn fund_treasury_overflow_refused() {
    let (mut m, rc) = setup(u64::MAX);
    assert_eq!(fund_treasury(&mut m, rc, 1), Err(RewardCenterError::BalanceOverflow));
    assert_eq!(m.treasury_balance(&rc), Some(u64::MAX));
}

#[test]
fn create_listing_checks_address_and_duplicates() {
    let (mut m, rc) = setup(0);
    assert_eq!(
        create_listing(&mut m, addr(SELLER), addr(SELLER), rc, addr(ITEM), addr(42), 10, 1, escrowed(SELLER, 10)),
        Err(RewardCenterError::AddressMismatchError)
    );
    let l = listing_of(&m, &rc);
    assert_eq!(
        create_listing(&mut m, addr(SELLER), addr(SELLER), rc, addr(ITEM), l, 10, 1, Err(AdapterError { code: 3 })),
        Err(RewardCenterError::AdapterError(AdapterError { code: 3 }))
    );
    assert!(m.listings.is_empty());
    assert_eq!(create_listing(&mut m, addr(SELLER), addr(SELLER), rc, addr(ITEM), l, 10, 1, escrowed(SELLER, 10)), Ok(()));
    assert_eq!(
        create_listing(&mut m, addr(SELLER), addr(SELLER), rc, addr(ITEM), l, 12, 1, escrowed(SELLER, 12)),
        Err(RewardCenterError::StateConflictError)
    );
    assert_eq!(m.listings[0].price, 10);
}

#[test]
fn create_listing_needs_seller_signature() {
    let (mut m, rc) = setup(0);
    let l = listing_of(&m, &rc);
    assert_eq!(
        create_listing(&mut m, addr(BUYER), addr(SELLER), rc, addr(ITEM), l, 10, 1, escrowed(SELLER, 10)),
        Err(RewardCenterError::AuthorizationError)
    );
    assert!(m.listings.is_empty());
}

#[test]
fn create_listing_refuses_other_escrow() {
    let (mut m, rc) = setup(0);
    let l = listing_of(&m, &rc);
    assert_eq!(
        create_listing(&mut m, addr(SELLER), addr(SELLER), rc, addr(ITEM), l, 10, 1, escrowed(SELLER, 11)),
        Err(RewardCenterError::EscrowMismatch)
    );
    assert_eq!(
        create_listing(&mut m, addr(SELLER), addr(SELLER), rc, addr(ITEM), l, 10, 1, escrowed(BUYER, 10)),
        Err(RewardCenterError::EscrowMismatch)
    );
    assert!(m.listings.is_empty());
}

#[test]
fn update_and_close_listing() {
    let (mut m, _, l) = listed(0, 10);
    assert_eq!(update_listing(&mut m, addr(BUYER), l, 20, escrowed(SELLER, 20)), Err(RewardCenterError::AuthorizationError));
    assert_eq!(update_listing(&mut m, addr(SELLER), l, 20, escrowed(SELLER, 20)), Ok(()));
    assert_eq!(m.listings[0].price, 20);
    assert_eq!(
        update_listing(&mut m, addr(SELLER), l, 25, Err(AdapterError { code: 2 })),
        Err(RewardCenterError::AdapterError(AdapterError { code: 2 }))
    );
    assert_eq!(update_listing(&mut m, addr(SELLER), l, 25, escrowed(SELLER, 20)), Err(RewardCenterError::EscrowMismatch));
    assert_eq!(m.listings[0].price, 20);
    assert_eq!(close_listing(&mut m, addr(SELLER), l, escrowed(SELLER, 10)), Err(RewardCenterError::EscrowMismatch));
    assert_eq!(close_listing(&mut m, addr(SELLER), l, escrowed(SELLER, 20)), Ok(()));
    assert_eq!(listing_state(&m, &l), ListingState::Canceled);
    assert_eq!(update_listing(&mut m, addr(SELLER), l, 30, escrowed(SELLER, 30)), Err(RewardCenterError::StateConflictError));
    assert_eq!(m.listings[0].price, 20);
}

#[test]
fn close_listing_twice() {
    let (mut m, _, l) = listed(0, 10);
    assert_eq!(close_listing(&mut m, addr(SELLER), l, escrowed(SELLER, 10)), Ok(()));
    assert_eq!(close_listing(&mut m, addr(SELLER), l, escrowed(SELLER, 10)), Err(RewardCenterError::StateConflictError));
    assert_eq!(listing_state(&m, &l), ListingState::Canceled);
    assert_eq!(m.listings.len(), 1);
}

#[test]
fn canceled_listing_can_be_listed_again() {
    let (mut m, rc, l) = listed(0, 10);
    close_listing(&mut m, addr(SELLER), l, escrowed(SELLER, 10)).unwrap();
    assert_eq!(create_listing(&mut m, addr(SELLER), addr(SELLER), rc, addr(ITEM), l, 15, 1, escrowed(SELLER, 15)), Ok(()));
    assert_eq!(m.listings.len(), 1);
    assert_eq!(listing_state(&m, &l), ListingState::Active);
    assert_eq!(m.listings[0].price, 15);
}

#[test]
fn buy_listing_pays_rewards() {
    let (mut m, rc, l) = listed(1000, 1000);
    assert_eq!(buy_listing(&mut m, addr(BUYER), rc, l, sold(BUYER, 1000)), Ok(paid(180, 20)));
    assert_eq!(listing_state(&m, &l), ListingState::Sold);
    assert_eq!(m.treasury_balance(&rc), Some(800));
}

#[test]
fn buy_listing_refuses_sale_at_other_price_or_buyer() {
    let (mut m, rc, l) = listed(1000, 1000);
    assert_eq!(buy_listing(&mut m, addr(BUYER), rc, l, sold(BUYER, 999)), Err(RewardCenterError::EscrowMismatch));
    assert_eq!(buy_listing(&mut m, addr(BUYER), rc, l, sold(DEST, 1000)), Err(RewardCenterError::EscrowMismatch));
    assert_eq!(listing_state(&m, &l), ListingState::Active);
    assert_eq!(m.treasury_balance(&rc), Some(1000));
}

#[test]
fn buy_listing_with_short_treasury_pays_nothing() {
    let (mut m, rc, l) = listed(199, 1000);
    assert_eq!(buy_listing(&mut m, addr(BUYER), rc, l, sold(BUYER, 1000)), Ok(paid(0, 0)));
    assert_eq!(listing_state(&m, &l), ListingState::Sold);
    assert_eq!(m.treasury_balance(&rc), Some(199));
}

#[test]
fn refused_sale_changes_nothing() {
    let (mut m, rc, l) = listed(1000, 1000);
    assert_eq!(
        buy_listing(&mut m, addr(BUYER), rc, l, Err(AdapterError { code: 9 })),
        Err(RewardCenterError::AdapterError(AdapterError { code: 9 }))
    );
    assert_eq!(listing_state(&m, &l), ListingState::Active);
    assert_eq!(m.treasury_balance(&rc), Some(1000));
}

#[test]
fn second_purchase_conflicts() {
    let (mut m, rc, l) = listed(1000, 1000);
    assert!(buy_listing(&mut m, addr(BUYER), rc, l, sold(BUYER, 1000)).is_ok());
    assert_eq!(buy_listing(&mut m, addr(DEST), rc, l, sold(DEST, 1000)), Err(RewardCenterError::StateConflictError));
    assert_eq!(listing_state(&m, &l), ListingState::Sold);
    assert_eq!(m.treasury_balance(&rc), Some(800));
}

#[test]
fn buy_listing_of_another_reward_center_mismatches() {
    let (mut m, _, l) = listed(1000, 1000);
    let other = create_reward_center(&mut m, addr(AUTHORITY), addr(77), addr(MINT), divide_rules(0)).unwrap();
    assert_eq!(buy_listing(&mut m, addr(BUYER), other, l, sold(BUYER, 1000)), Err(RewardCenterError::AddressMismatchError));
    assert_eq!(buy_listing(&mut m, addr(BUYER), other, addr(55), sold(BUYER, 1000)), Err(RewardCenterError::AccountNotFound));
}

#[test]
fn offer_lifecycle() {
    let (mut m, rc) = setup(0);
    let o = offer_of(&m, &rc);
    assert_eq!(
        create_offer(&mut m, addr(SELLER), addr(BUYER), rc, addr(ITEM), o, 50, 1, escrowed(BUYER, 50)),
        Err(RewardCenterError::AuthorizationError)
    );
    assert_eq!(
        create_offer(&mut m, addr(BUYER), addr(BUYER), rc, addr(ITEM), o, 50, 1, escrowed(BUYER, 49)),
        Err(RewardCenterError::EscrowMismatch)
    );
    assert!(m.offers.is_empty());
    assert_eq!(create_offer(&mut m, addr(BUYER), addr(BUYER), rc, addr(ITEM), o, 50, 1, escrowed(BUYER, 50)), Ok(()));
    assert_eq!(
        create_offer(&mut m, addr(BUYER), addr(BUYER), rc, addr(ITEM), o, 50, 1, escrowed(BUYER, 50)),
        Err(RewardCenterError::StateConflictError)
    );
    assert_eq!(close_offer(&mut m, addr(SELLER), o, escrowed(BUYER, 50)), Err(RewardCenterError::AuthorizationError));
    assert_eq!(
        close_offer(&mut m, addr(BUYER), o, Err(AdapterError { code: 1 })),
        Err(RewardCenterError::AdapterError(AdapterError { code: 1 }))
    );
    assert_eq!(close_offer(&mut m, addr(BUYER), o, escrowed(SELLER, 50)), Err(RewardCenterError::EscrowMismatch));
    assert_eq!(m.offers[0].state, OfferState::Active);
    assert_eq!(close_offer(&mut m, addr(BUYER), o, escrowed(BUYER, 50)), Ok(()));
    assert_eq!(m.offers[0].state, OfferState::Canceled);
    assert_eq!(close_offer(&mut m, addr(BUYER), o, escrowed(BUYER, 50)), Err(RewardCenterError::StateConflictError));
}

#[test]
fn accept_offer_settles_both_sides() {
    let (mut m, rc, l) = listed(1000, 1000);
    let o = offer_of(&m, &rc);
    create_offer(&mut m, addr(BUYER), addr(BUYER), rc, addr(ITEM), o, 900, 1, escrowed(BUYER, 900)).unwrap();
    assert_eq!(accept_offer(&mut m, addr(SELLER), rc, l, o, sold(BUYER, 900)), Err(RewardCenterError::PriceMismatch));
    assert_eq!(accept_offer(&mut m, addr(BUYER), rc, l, o, sold(BUYER, 900)), Err(RewardCenterError::AuthorizationError));
    update_listing(&mut m, addr(SELLER), l, 900, escrowed(SELLER, 900)).unwrap();
    assert_eq!(
        accept_offer(&mut m, addr(SELLER), rc, l, o, Err(AdapterError { code: 4 })),
        Err(RewardCenterError::AdapterError(AdapterError { code: 4 }))
    );
    assert_eq!(accept_offer(&mut m, addr(SELLER), rc, l, o, sold(DEST, 900)), Err(RewardCenterError::EscrowMismatch));
    assert_eq!(m.offers[0].state, OfferState::Active);
    assert_eq!(m.treasury_balance(&rc), Some(1000));
    assert_eq!(accept_offer(&mut m, addr(SELLER), rc, l, o, sold(BUYER, 900)), Ok(paid(162, 18)));
    assert_eq!(listing_state(&m, &l), ListingState::Sold);
    assert_eq!(m.offers[0].state, OfferState::Accepted);
    assert_eq!(m.treasury_balance(&rc), Some(820));
    assert_eq!(accept_offer(&mut m, addr(SELLER), rc, l, o, sold(BUYER, 900)), Err(RewardCenterError::StateConflictError));
}
