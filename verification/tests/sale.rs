use marketplace::events::{EventLog, MarketplaceEvent};
use marketplace::marketplace::Marketplace;
use marketplace::fees::Split;
use marketplace::purchase::{
    Payment, Progress, Purchase, PurchaseOutcome, PurchaseStep, Stage,
};
use marketplace::records::{Item, OfferItem, RegisteredCollection};
use marketplace::sale::{Internal, MarketplaceSale};
use marketplace::types::{AccountId, CodeHash, MarketplaceError, NftContractType, TokenId};

fn account(n: u8) -> AccountId {
    AccountId::new([n; 32])
}

const OWNER: u8 = 1;
const SELLER: u8 = 2;
const BUYER: u8 = 3;
const AUTHOR: u8 = 4;
const COLLECTION: u8 = 10;

fn fresh() -> Marketplace {
    Marketplace::new(account(OWNER), 250, 1000).unwrap()
}

fn with_collection(log: &mut EventLog) -> Marketplace {
    let mut m = fresh();
    m.register(log, account(OWNER), account(COLLECTION), account(AUTHOR), 500, vec![1, 2], None)
        .unwrap();
    m
}

#[test]
fn new_marketplace_has_the_terms_given() {
    let m = fresh();
    assert_eq!(m.owner(), account(OWNER));
    assert_eq!(m.get_marketplace_fee(), 250);
    assert_eq!(m.get_max_fee(), 1000);
    assert_eq!(m.get_fee_recipient(), Err(MarketplaceError::FeeRecipientNotSet));
    assert!(!m.is_buying());
    assert_eq!(m.get_deposit(account(SELLER)), 0);
    assert_eq!(m.get_registered_collection(account(COLLECTION)), None);
}

#[test]
fn new_marketplace_rejects_fee_above_ceiling() {
    assert!(matches!(
        Marketplace::new(account(OWNER), 1001, 1000),
        Err(MarketplaceError::FeeTooHigh)
    ));
    assert!(Marketplace::new(account(OWNER), 1000, 1000).is_ok());
}

#[test]
fn internal_checks() {
    let m = fresh();
    assert_eq!(m.check_price(1000, 1000), Ok(()));
    assert_eq!(m.check_price(1001, 1000), Ok(()));
    assert_eq!(m.check_price(999, 1000), Err(MarketplaceError::BadBuyValue));
    assert_eq!(m.check_fee(1000, 1000), Ok(()));
    assert_eq!(m.check_fee(1001, 1000), Err(MarketplaceError::FeeTooHigh));
    assert_eq!(m.check_token_allowance(true), Ok(()));
    assert_eq!(m.check_token_allowance(false), Err(MarketplaceError::TokenNotApproved));
    assert_eq!(m.get_deposit_internal(account(SELLER)), 0);
}

#[test]
fn check_token_owner_reports_first_failure() {
    let mut log = EventLog::new();
    let m = with_collection(&mut log);
    let c = account(COLLECTION);
    assert_eq!(
        m.check_token_owner(account(SELLER), account(11), Some(account(SELLER))),
        Err(MarketplaceError::NotRegisteredContract)
    );
    assert_eq!(
        m.check_token_owner(account(SELLER), account(11), None),
        Err(MarketplaceError::NotRegisteredContract)
    );
    assert_eq!(
        m.check_token_owner(account(SELLER), c, None),
        Err(MarketplaceError::TokenDoesNotExist)
    );
    assert_eq!(
        m.check_token_owner(account(SELLER), c, Some(account(BUYER))),
        Err(MarketplaceError::NotOwner)
    );
    assert_eq!(m.check_token_owner(account(SELLER), c, Some(account(SELLER))), Ok(()));
}

#[test]
fn nft_contract_hash_is_set_by_owner_only() {
    let mut m = fresh();
    let hash = CodeHash::new([7; 32]);
    assert_eq!(
        m.nft_contract_hash(NftContractType::Psp34),
        Err(MarketplaceError::NftContractHashNotSet)
    );
    assert_eq!(
        m.set_nft_contract_hash(account(SELLER), NftContractType::Psp34, hash),
        Err(MarketplaceError::NotOwner)
    );
    assert_eq!(
        m.get_nft_contract_hash(&NftContractType::Psp34),
        Err(MarketplaceError::NftContractHashNotSet)
    );
    assert_eq!(m.set_nft_contract_hash(account(OWNER), NftContractType::Psp34, hash), Ok(()));
    assert_eq!(m.nft_contract_hash(NftContractType::Psp34), Ok(hash));
    assert_eq!(m.get_nft_contract_hash(&NftContractType::Psp34), Ok(hash));
    assert_eq!(
        m.nft_contract_hash(NftContractType::Rmrk),
        Err(MarketplaceError::NftContractHashNotSet)
    );
    let other = CodeHash::new([8; 32]);
    assert_eq!(m.set_nft_contract_hash(account(OWNER), NftContractType::Psp34, other), Ok(()));
    assert_eq!(m.nft_contract_hash(NftContractType::Psp34), Ok(other));
}

#[test]
fn marketplace_fee_is_set_by_owner_under_ceiling() {
    let mut m = fresh();
    assert_eq!(m.set_marketplace_fee(account(SELLER), 300), Err(MarketplaceError::NotOwner));
    assert_eq!(m.set_marketplace_fee(account(SELLER), 3000), Err(MarketplaceError::NotOwner));
    assert_eq!(m.get_marketplace_fee(), 250);
    assert_eq!(m.set_marketplace_fee(account(OWNER), 1001), Err(MarketplaceError::FeeTooHigh));
    assert_eq!(m.get_marketplace_fee(), 250);
    assert_eq!(m.set_marketplace_fee(account(OWNER), 1000), Ok(()));
    assert_eq!(m.get_marketplace_fee(), 1000);
    assert_eq!(m.get_max_fee(), 1000);
}

#[test]
fn fee_recipient_is_set_by_owner_only() {
    let mut m = fresh();
    assert_eq!(
        m.set_fee_recipient(account(SELLER), account(SELLER)),
        Err(MarketplaceError::NotOwner)
    );
    assert_eq!(m.get_fee_recipient(), Err(MarketplaceError::FeeRecipientNotSet));
    assert_eq!(m.set_fee_recipient(account(OWNER), account(9)), Ok(()));
    assert_eq!(m.get_fee_recipient(), Ok(account(9)));
}

#[test]
fn register_checks_fee_then_presence_then_caller() {
    let mut log = EventLog::new();
    let mut m = fresh();
    let c = account(COLLECTION);
    // the royalty is checked first, whoever calls
    assert_eq!(
        m.register(&mut log, account(SELLER), c, account(AUTHOR), 1001, vec![], None),
        Err(MarketplaceError::FeeTooHigh)
    );
    // of a collection that is not registered the caller is checked
    assert_eq!(
        m.register(&mut log, account(SELLER), c, account(AUTHOR), 500, vec![], None),
        Err(MarketplaceError::NotOwner)
    );
    assert_eq!(
        m.register(&mut log, account(SELLER), c, account(AUTHOR), 500, vec![], Some(account(BUYER))),
        Err(MarketplaceError::NotOwner)
    );
    assert_eq!(m.get_registered_collection(c), None);
    assert!(log.events().is_empty());
    // the collection's own owner may register it
    assert_eq!(
        m.register(&mut log, account(SELLER), c, account(AUTHOR), 1000, vec![5], Some(account(SELLER))),
        Ok(())
    );
    assert_eq!(
        m.get_registered_collection(c),
        Some(RegisteredCollection {
            royalty_receiver: account(AUTHOR),
            royalty: 1000,
            marketplace_ipfs: vec![5],
        })
    );
    assert_eq!(log.events(), &vec![MarketplaceEvent::CollectionRegistered { contract: c }]);
}

#[test]
fn register_twice_fails_for_every_caller() {
    let mut log = EventLog::new();
    let mut m = with_collection(&mut log);
    let c = account(COLLECTION);
    assert_eq!(
        m.register(&mut log, account(OWNER), c, account(BUYER), 100, vec![], None),
        Err(MarketplaceError::ContractAlreadyRegistered)
    );
    assert_eq!(
        m.register(&mut log, account(SELLER), c, account(BUYER), 100, vec![], Some(account(SELLER))),
        Err(MarketplaceError::ContractAlreadyRegistered)
    );
    // also for a caller who owns neither the marketplace nor the collection
    assert_eq!(
        m.register(&mut log, account(SELLER), c, account(BUYER), 100, vec![], None),
        Err(MarketplaceError::ContractAlreadyRegistered)
    );
    assert_eq!(
        m.register(&mut log, account(SELLER), c, account(BUYER), 100, vec![], Some(account(BUYER))),
        Err(MarketplaceError::ContractAlreadyRegistered)
    );
    assert_eq!(
        m.register(&mut log, account(BUYER), c, account(BUYER), 1000, vec![9], None),
        Err(MarketplaceError::ContractAlreadyRegistered)
    );
    // a royalty above the ceiling is refused before that
    assert_eq!(
        m.register(&mut log, account(OWNER), c, account(BUYER), 2000, vec![], None),
        Err(MarketplaceError::FeeTooHigh)
    );
    assert_eq!(
        m.register(&mut log, account(SELLER), c, account(BUYER), 1001, vec![], None),
        Err(MarketplaceError::FeeTooHigh)
    );
    assert_eq!(
        m.get_registered_collection(c),
        Some(RegisteredCollection {
            royalty_receiver: account(AUTHOR),
            royalty: 500,
            marketplace_ipfs: vec![1, 2],
        })
    );
    assert_eq!(log.events().len(), 1);
}

#[test]
fn set_contract_metadata_replaces_metadata_only() {
    let mut log = EventLog::new();
    let mut m = with_collection(&mut log);
    assert_eq!(
        m.set_contract_metadata(account(11), vec![9]),
        Err(MarketplaceError::NotRegisteredContract)
    );
    assert_eq!(m.set_contract_metadata(account(COLLECTION), vec![9, 9]), Ok(()));
    assert_eq!(
        m.get_registered_collection(account(COLLECTION)),
        Some(RegisteredCollection {
            royalty_receiver: account(AUTHOR),
            royalty: 500,
            marketplace_ipfs: vec![9, 9],
        })
    );
}

#[test]
fn list_needs_registered_collection_owner_and_allowance() {
    let mut log = EventLog::new();
    let mut m = with_collection(&mut log);
    let c = account(COLLECTION);
    let seller = account(SELLER);
    assert_eq!(
        m.list(&mut log, seller, account(11), TokenId::U64(1), 1000, Some(seller), true),
        Err(MarketplaceError::NotRegisteredContract)
    );
    assert_eq!(
        m.list(&mut log, seller, c, TokenId::U64(1), 1000, None, true),
        Err(MarketplaceError::TokenDoesNotExist)
    );
    assert_eq!(
        m.list(&mut log, seller, c, TokenId::U64(1), 1000, Some(account(BUYER)), true),
        Err(MarketplaceError::NotOwner)
    );
    assert_eq!(
        m.list(&mut log, seller, c, TokenId::U64(1), 1000, Some(seller), false),
        Err(MarketplaceError::TokenNotApproved)
    );
    assert_eq!(m.get_price(c, TokenId::U64(1)), None);
    assert!(!m.is_token_listed(c, &TokenId::U64(1)));
    assert_eq!(log.events().len(), 1);
    assert_eq!(m.list(&mut log, seller, c, TokenId::U64(1), 1000, Some(seller), true), Ok(()));
    assert_eq!(m.get_price(c, TokenId::U64(1)), Some(1000));
    assert!(m.is_token_listed(c, &TokenId::U64(1)));
    assert_eq!(
        log.events()[1],
        MarketplaceEvent::TokenListed { contract: c, token_id: TokenId::U64(1), price: Some(1000) }
    );
}

#[test]
fn list_again_replaces_price_and_seller() {
    let mut log = EventLog::new();
    let mut m = with_collection(&mut log);
    let c = account(COLLECTION);
    m.list(&mut log, account(SELLER), c, TokenId::U64(1), 1000, Some(account(SELLER)), true)
        .unwrap();
    m.list(&mut log, account(BUYER), c, TokenId::U64(1), 400, Some(account(BUYER)), true)
        .unwrap();
    assert_eq!(m.get_price(c, TokenId::U64(1)), Some(400));
    let snapshot = m.snapshot();
    assert_eq!(snapshot.items.len(), 1);
    assert_eq!(snapshot.items[0].1.owner, account(BUYER));
}

#[test]
fn unlist_needs_listing_then_owner() {
    let mut log = EventLog::new();
    let mut m = with_collection(&mut log);
    let c = account(COLLECTION);
    let seller = account(SELLER);
    assert_eq!(
        m.unlist(&mut log, seller, c, TokenId::U64(1), Some(seller)),
        Err(MarketplaceError::ItemNotListedForSale)
    );
    m.list(&mut log, seller, c, TokenId::U64(1), 1000, Some(seller), true).unwrap();
    assert_eq!(
        m.unlist(&mut log, account(BUYER), c, TokenId::U64(1), Some(seller)),
        Err(MarketplaceError::NotOwner)
    );
    assert_eq!(
        m.unlist(&mut log, seller, c, TokenId::U64(1), None),
        Err(MarketplaceError::TokenDoesNotExist)
    );
    assert_eq!(m.get_price(c, TokenId::U64(1)), Some(1000));
    assert_eq!(log.events().len(), 2);
    // the asset changed hands since: its owner of today takes it off sale
    assert_eq!(
        m.unlist(&mut log, account(BUYER), c, TokenId::U64(1), Some(account(BUYER))),
        Ok(())
    );
    assert_eq!(m.get_price(c, TokenId::U64(1)), None);
    assert_eq!(
        log.events()[2],
        MarketplaceEvent::TokenListed { contract: c, token_id: TokenId::U64(1), price: None }
    );
}

#[test]
fn deposit_credits_the_caller() {
    let mut m = fresh();
    assert_eq!(m.deposit(account(SELLER), 500), Ok(()));
    assert_eq!(m.deposit(account(SELLER), 1), Ok(()));
    assert_eq!(m.get_deposit(account(SELLER)), 501);
    assert_eq!(m.get_deposit(account(BUYER)), 0);
    assert_eq!(m.get_deposit_internal(account(SELLER)), 501);
}

#[test]
fn deposit_fails_on_overflow_and_keeps_balance() {
    let mut m = fresh();
    assert_eq!(m.deposit(account(SELLER), u128::MAX), Ok(()));
    assert_eq!(m.deposit(account(SELLER), 1), Err(MarketplaceError::ArithmeticOverflow));
    assert_eq!(m.get_deposit(account(SELLER)), u128::MAX);
    assert_eq!(m.deposit(account(SELLER), 0), Ok(()));
}

#[test]
fn deposit_500_then_withdraw_600_fails_and_balance_remains() {
    let mut m = fresh();
    assert_eq!(m.deposit(account(SELLER), 500), Ok(()));
    assert_eq!(m.withdraw(account(SELLER), 600), Err(MarketplaceError::BalanceInsufficient));
    assert_eq!(m.get_deposit(account(SELLER)), 500);
}

#[test]
fn withdraw_debits_and_owes_the_amount_to_the_caller() {
    let mut m = fresh();
    m.deposit(account(SELLER), 500).unwrap();
    m.deposit(account(BUYER), 70).unwrap();
    assert_eq!(
        m.withdraw(account(SELLER), 200),
        Ok(Payment { to: account(SELLER), amount: 200 })
    );
    assert_eq!(m.get_deposit(account(SELLER)), 300);
    assert_eq!(m.get_deposit(account(BUYER)), 70);
    assert_eq!(
        m.withdraw(account(SELLER), 300),
        Ok(Payment { to: account(SELLER), amount: 300 })
    );
    assert_eq!(m.get_deposit(account(SELLER)), 0);
    assert_eq!(m.withdraw(account(SELLER), 1), Err(MarketplaceError::BalanceInsufficient));
    assert_eq!(m.withdraw(account(SELLER), 0), Ok(Payment { to: account(SELLER), amount: 0 }));
}

#[test]
fn withdrawal_that_was_paid_stands() {
    let mut m = fresh();
    m.deposit(account(SELLER), 500).unwrap();
    let owed = m.withdraw(account(SELLER), 200).unwrap();
    assert_eq!(m.settle_withdrawal(owed, true), Ok(()));
    assert_eq!(m.get_deposit(account(SELLER)), 300);
}

#[test]
fn withdrawal_that_was_not_paid_is_credited_back() {
    let mut m = fresh();
    m.deposit(account(SELLER), 500).unwrap();
    let owed = m.withdraw(account(SELLER), 200).unwrap();
    assert_eq!(m.get_deposit(account(SELLER)), 300);
    assert_eq!(m.settle_withdrawal(owed, false), Err(MarketplaceError::TransferToOwnerFailed));
    assert_eq!(m.get_deposit(account(SELLER)), 500);
}

#[test]
fn withdrawal_that_cannot_be_credited_back_overflows() {
    let mut m = fresh();
    m.deposit(account(SELLER), u128::MAX).unwrap();
    let unpaid = Payment { to: account(SELLER), amount: 1 };
    assert_eq!(m.settle_withdrawal(unpaid, false), Err(MarketplaceError::ArithmeticOverflow));
    assert_eq!(m.get_deposit(account(SELLER)), u128::MAX);
}

#[test]
fn make_offer_of_two_at_100_with_deposit_150_fails() {
    let mut log = EventLog::new();
    let mut m = fresh();
    m.deposit(account(BUYER), 150).unwrap();
    assert_eq!(
        m.make_offer(&mut log, account(BUYER), account(COLLECTION), None, 2, 100, vec![]),
        Err(MarketplaceError::BalanceInsufficient)
    );
    assert!(log.events().is_empty());
    assert!(!m.get_offer_active(account(BUYER), 1));
    assert_eq!(m.snapshot().last_offer_id, 0);
}

#[test]
fn make_offer_returns_increasing_numbers_and_tells() {
    let mut log = EventLog::new();
    let mut m = fresh();
    let c = account(COLLECTION);
    m.deposit(account(BUYER), 200).unwrap();
    assert_eq!(m.make_offer(&mut log, account(BUYER), c, None, 2, 100, vec![1]), Ok(1));
    assert_eq!(
        m.make_offer(&mut log, account(BUYER), c, Some(TokenId::U8(5)), 1, 200, vec![]),
        Ok(2)
    );
    assert_eq!(m.make_offer(&mut log, account(BUYER), c, None, 0, u128::MAX, vec![]), Ok(3));
    assert_eq!(
        m.make_offer(&mut log, account(BUYER), c, None, 3, 100, vec![]),
        Err(MarketplaceError::BalanceInsufficient)
    );
    assert_eq!(
        m.make_offer(&mut log, account(BUYER), c, None, 2, u128::MAX, vec![]),
        Err(MarketplaceError::BalanceInsufficient)
    );
    assert_eq!(m.make_offer(&mut log, account(SELLER), c, None, 0, 0, vec![]), Ok(4));
    assert_eq!(log.events().len(), 4);
    assert_eq!(
        log.events()[0],
        MarketplaceEvent::OfferMade {
            bidder_id: account(BUYER),
            contract: c,
            token_id: None,
            quantity: 2,
            price_per_item: 100,
            extra: vec![1],
            offer_id: 1,
        }
    );
    assert_eq!(
        log.events()[1],
        MarketplaceEvent::OfferMade {
            bidder_id: account(BUYER),
            contract: c,
            token_id: Some(TokenId::U8(5)),
            quantity: 1,
            price_per_item: 200,
            extra: vec![],
            offer_id: 2,
        }
    );
    // the balance was checked, not set aside
    assert_eq!(m.get_deposit(account(BUYER)), 200);
}

#[test]
fn make_offer_fails_when_numbers_run_out() {
    let mut log = EventLog::new();
    let mut snapshot = fresh().snapshot();
    snapshot.last_offer_id = u128::MAX;
    let mut m = Marketplace::restore(snapshot).unwrap();
    assert_eq!(
        m.make_offer(&mut log, account(BUYER), account(COLLECTION), None, 0, 0, vec![]),
        Err(MarketplaceError::ArithmeticOverflow)
    );
    assert!(log.events().is_empty());
}

#[test]
fn offer_activity_follows_the_balance_of_who_asks() {
    let mut log = EventLog::new();
    let mut m = fresh();
    m.deposit(account(BUYER), 200).unwrap();
    m.make_offer(&mut log, account(BUYER), account(COLLECTION), None, 2, 100, vec![]).unwrap();
    assert!(m.get_offer_active(account(BUYER), 1));
    assert!(!m.get_offer_active(account(SELLER), 1));
    assert!(!m.get_offer_active(account(BUYER), 2));
    // the bidder withdraws: the offer stands, and is no longer covered
    m.withdraw(account(BUYER), 1).unwrap();
    assert!(!m.get_offer_active(account(BUYER), 1));
    m.deposit(account(SELLER), 200).unwrap();
    assert!(m.get_offer_active(account(SELLER), 1));
}

#[test]
fn cancel_offer_is_for_the_bidder() {
    let mut log = EventLog::new();
    let mut m = fresh();
    m.deposit(account(BUYER), 200).unwrap();
    m.make_offer(&mut log, account(BUYER), account(COLLECTION), None, 2, 100, vec![]).unwrap();
    assert_eq!(m.cancel_offer(account(SELLER), 1), Err(MarketplaceError::NotOwner));
    assert_eq!(m.cancel_offer(account(OWNER), 1), Err(MarketplaceError::NotOwner));
    assert!(m.get_offer_active(account(BUYER), 1));
    assert_eq!(m.cancel_offer(account(BUYER), 2), Err(MarketplaceError::OfferNotFound));
    assert_eq!(m.cancel_offer(account(BUYER), 1), Ok(()));
    assert!(!m.get_offer_active(account(BUYER), 1));
    assert_eq!(m.cancel_offer(account(BUYER), 1), Err(MarketplaceError::OfferNotFound));
    // the number is not given out again
    assert_eq!(
        m.make_offer(&mut log, account(BUYER), account(COLLECTION), None, 1, 1, vec![]),
        Ok(2)
    );
}

#[test]
fn accept_and_fulfill_offer_change_nothing() {
    let mut log = EventLog::new();
    let mut m = fresh();
    m.deposit(account(BUYER), 200).unwrap();
    m.make_offer(&mut log, account(BUYER), account(COLLECTION), None, 2, 100, vec![]).unwrap();
    assert_eq!(m.accept_offer(1, TokenId::U8(1)), Ok(()));
    assert_eq!(m.accept_offer(2, TokenId::U8(1)), Err(MarketplaceError::OfferNotFound));
    assert_eq!(m.fulfill_offer(1, TokenId::U8(1)), Ok(()));
    assert_eq!(m.fulfill_offer(2, TokenId::U8(1)), Ok(()));
    assert!(m.get_offer_active(account(BUYER), 1));
    assert_eq!(m.get_deposit(account(BUYER)), 200);
    let snapshot = m.snapshot();
    assert_eq!(snapshot.offers.len(), 1);
    assert_eq!(snapshot.last_offer_id, 1);
}

#[test]
fn snapshot_round_trip_keeps_everything() {
    let mut log = EventLog::new();
    let mut m = with_collection(&mut log);
    let c = account(COLLECTION);
    m.set_fee_recipient(account(OWNER), account(9)).unwrap();
    m.set_nft_contract_hash(account(OWNER), NftContractType::Rmrk, CodeHash::new([3; 32]))
        .unwrap();
    m.list(&mut log, account(SELLER), c, TokenId::Bytes(vec![1, 2]), 1000, Some(account(SELLER)), true)
        .unwrap();
    m.deposit(account(BUYER), 300).unwrap();
    m.make_offer(&mut log, account(BUYER), c, None, 3, 100, vec![4]).unwrap();
    m.buy(account(BUYER), c, TokenId::Bytes(vec![1, 2]), 1000);
    let m = Marketplace::restore(m.snapshot()).unwrap();
    assert_eq!(m.owner(), account(OWNER));
    assert_eq!(m.get_marketplace_fee(), 250);
    assert_eq!(m.get_max_fee(), 1000);
    assert_eq!(m.get_fee_recipient(), Ok(account(9)));
    assert_eq!(m.nft_contract_hash(NftContractType::Rmrk), Ok(CodeHash::new([3; 32])));
    assert_eq!(m.get_price(c, TokenId::Bytes(vec![1, 2])), Some(1000));
    assert_eq!(m.get_deposit(account(BUYER)), 300);
    assert!(m.get_offer_active(account(BUYER), 1));
    assert!(m.is_buying());
    assert_eq!(
        m.get_registered_collection(c),
        Some(RegisteredCollection {
            royalty_receiver: account(AUTHOR),
            royalty: 500,
            marketplace_ipfs: vec![1, 2],
        })
    );
    let first = m.snapshot();
    let second = Marketplace::restore(Marketplace::restore(first).unwrap().snapshot())
        .unwrap()
        .snapshot();
    assert_eq!(second.last_offer_id, 1);
    assert_eq!(second.items.len(), 1);
    assert_eq!(second.offers.len(), 1);
    assert_eq!(second.collections.len(), 1);
}

#[test]
fn restore_rejects_fee_above_ceiling() {
    let mut snapshot = fresh().snapshot();
    snapshot.fee = 1001;
    assert!(matches!(Marketplace::restore(snapshot), Err(MarketplaceError::InvalidSnapshot)));
}

#[test]
fn restore_rejects_royalty_above_ceiling() {
    let mut snapshot = fresh().snapshot();
    snapshot.collections.push((
        account(COLLECTION),
        RegisteredCollection {
            royalty_receiver: account(AUTHOR),
            royalty: 1001,
            marketplace_ipfs: vec![],
        },
    ));
    assert!(matches!(Marketplace::restore(snapshot), Err(MarketplaceError::InvalidSnapshot)));
}

#[test]
fn restore_rejects_listing_of_unregistered_collection() {
    let mut snapshot = fresh().snapshot();
    snapshot
        .items
        .push(((account(COLLECTION), TokenId::U8(1)), Item { owner: account(SELLER), price: 1 }));
    assert!(matches!(Marketplace::restore(snapshot), Err(MarketplaceError::InvalidSnapshot)));
}

#[test]
fn restore_rejects_offer_with_number_not_given_out() {
    let standing = |id: u128| {
        (
            id,
            OfferItem {
                bidder_id: account(BUYER),
                contract_address: account(COLLECTION),
                token_id: None,
                quantity: 1,
                price_per_item: 1,
                extra: vec![],
            },
        )
    };
    let mut snapshot = fresh().snapshot();
    snapshot.last_offer_id = 3;
    snapshot.offers.push(standing(4));
    assert!(matches!(Marketplace::restore(snapshot), Err(MarketplaceError::InvalidSnapshot)));
    let mut snapshot = fresh().snapshot();
    snapshot.last_offer_id = 3;
    snapshot.offers.push(standing(0));
    assert!(matches!(Marketplace::restore(snapshot), Err(MarketplaceError::InvalidSnapshot)));
    let mut snapshot = fresh().snapshot();
    snapshot.last_offer_id = 3;
    snapshot.offers.push(standing(3));
    snapshot.offers.push(standing(1));
    let m = Marketplace::restore(snapshot).unwrap();
    assert!(m.is_valid());
}

#[test]
fn restore_rejects_purchase_that_does_not_add_up() {
    let in_flight = |split: Split| Purchase {
        buyer: account(BUYER),
        contract_address: account(COLLECTION),
        token_id: TokenId::U8(1),
        value: 1000,
        item: Item { owner: account(SELLER), price: 1000 },
        progress: Progress::Settling {
            stage: Stage::SellerPayment,
            seller: account(SELLER),
            royalty_receiver: account(AUTHOR),
            split,
        },
    };
    let mut log = EventLog::new();
    let mut snapshot = with_collection(&mut log).snapshot();
    snapshot.purchase =
        Some(in_flight(Split { marketplace_fee: 25, author_royalty: 50, seller_fee: 926 }));
    assert!(matches!(Marketplace::restore(snapshot), Err(MarketplaceError::InvalidSnapshot)));
    let mut snapshot = with_collection(&mut log).snapshot();
    snapshot.purchase = Some(in_flight(Split {
        marketplace_fee: u128::MAX,
        author_royalty: 1001,
        seller_fee: 0,
    }));
    assert!(matches!(Marketplace::restore(snapshot), Err(MarketplaceError::InvalidSnapshot)));
    // for a collection that is not registered
    let mut snapshot = fresh().snapshot();
    snapshot.purchase =
        Some(in_flight(Split { marketplace_fee: 25, author_royalty: 50, seller_fee: 925 }));
    assert!(matches!(Marketplace::restore(snapshot), Err(MarketplaceError::InvalidSnapshot)));
    let mut snapshot = with_collection(&mut log).snapshot();
    snapshot.purchase =
        Some(in_flight(Split { marketplace_fee: 25, author_royalty: 50, seller_fee: 925 }));
    let mut m = Marketplace::restore(snapshot).unwrap();
    assert!(m.is_buying());
    // the purchase goes on from where it was laid out
    m.set_fee_recipient(account(OWNER), account(9)).unwrap();
    assert_eq!(
        m.resume_buy(&mut log, PurchaseOutcome::Paid(true)),
        PurchaseStep::Pay(Payment { to: account(9), amount: 25 })
    );
}

#[test]
fn marketplace_stays_valid() {
    let mut log = EventLog::new();
    let mut m = with_collection(&mut log);
    assert!(m.is_valid());
    let c = account(COLLECTION);
    m.list(&mut log, account(SELLER), c, TokenId::U8(1), 1000, Some(account(SELLER)), true)
        .unwrap();
    m.deposit(account(BUYER), 100).unwrap();
    m.make_offer(&mut log, account(BUYER), c, None, 1, 100, vec![]).unwrap();
    m.set_fee_recipient(account(OWNER), account(9)).unwrap();
    assert!(m.is_valid());
    m.buy(account(BUYER), c, TokenId::U8(1), 1000);
    assert!(m.is_valid());
    m.resume_buy(&mut log, PurchaseOutcome::OwnerResolved(Some(account(SELLER))));
    assert!(m.is_valid());
    m.resume_buy(&mut log, PurchaseOutcome::TokenTransferred(true));
    assert!(m.is_valid());
    m.resume_buy(&mut log, PurchaseOutcome::Paid(false));
    assert!(m.is_valid());
    m.cancel_offer(account(BUYER), 1).unwrap();
    assert!(m.is_valid());
}

#[test]
fn list_asks_the_registry_only_where_its_answer_matters() {
    let mut log = EventLog::new();
    let m = with_collection(&mut log);
    let c = account(COLLECTION);
    let seller = account(SELLER);
    assert!(m.list_asks_owner(c));
    assert!(!m.list_asks_owner(account(11)));
    assert!(m.list_asks_allowance(seller, c, Some(seller)));
    assert!(!m.list_asks_allowance(seller, c, Some(account(BUYER))));
    assert!(!m.list_asks_allowance(seller, c, None));
    assert!(!m.list_asks_allowance(seller, account(11), Some(seller)));
}

#[test]
fn unlist_asks_the_registry_only_for_a_listed_asset() {
    let mut log = EventLog::new();
    let mut m = with_collection(&mut log);
    let c = account(COLLECTION);
    assert!(!m.unlist_asks_owner(c, &TokenId::U64(1)));
    m.list(&mut log, account(SELLER), c, TokenId::U64(1), 1000, Some(account(SELLER)), true)
        .unwrap();
    assert!(m.unlist_asks_owner(c, &TokenId::U64(1)));
    assert!(!m.unlist_asks_owner(c, &TokenId::U64(2)));
    assert!(!m.unlist_asks_owner(account(11), &TokenId::U64(1)));
}

#[test]
fn register_asks_the_collection_only_where_its_answer_matters() {
    let mut log = EventLog::new();
    let m = with_collection(&mut log);
    let c = account(COLLECTION);
    // an unregistered collection, a royalty under the ceiling, a caller who
    // does not own the marketplace
    assert!(m.register_asks_owner(account(SELLER), account(11), 1000));
    assert!(!m.register_asks_owner(account(OWNER), account(11), 1000));
    assert!(!m.register_asks_owner(account(SELLER), account(11), 1001));
    assert!(!m.register_asks_owner(account(SELLER), c, 1000));
}
