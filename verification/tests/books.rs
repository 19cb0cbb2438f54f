use marketplace::collections::CollectionRegistry;
use marketplace::escrow::EscrowLedger;
use marketplace::listings::ListingBook;
use marketplace::offers::OfferBook;
use marketplace::records::{covers, copy_optional_token, Item, OfferItem, RegisteredCollection};
use marketplace::types::{AccountId, MarketplaceError, TokenId};

fn account(n: u8) -> AccountId {
    AccountId::new([n; 32])
}

fn offer(bidder: AccountId, quantity: u64, price_per_item: u128) -> OfferItem {
    OfferItem {
        bidder_id: bidder,
        contract_address: account(50),
        token_id: None,
        quantity,
        price_per_item,
        extra: vec![],
    }
}

#[test]
fn covers_compares_product_with_balance() {
    assert!(covers(200, 2, 100));
    assert!(!covers(199, 2, 100));
    assert!(covers(0, 0, 100));
    assert!(covers(0, 5, 0));
    assert!(!covers(150, 2, 100));
}

#[test]
fn covers_is_false_where_product_is_no_balance() {
    assert!(!covers(u128::MAX, 2, u128::MAX));
    assert!(!covers(u128::MAX, u64::MAX, u128::MAX / 2));
    assert!(covers(u128::MAX, 1, u128::MAX));
}

#[test]
fn copy_optional_token_copies() {
    assert_eq!(copy_optional_token(&None), None);
    assert_eq!(
        copy_optional_token(&Some(TokenId::Bytes(vec![1, 2]))),
        Some(TokenId::Bytes(vec![1, 2]))
    );
}

#[test]
fn records_clone_equal() {
    let collection = RegisteredCollection {
        royalty_receiver: account(1),
        royalty: 500,
        marketplace_ipfs: vec![1, 2, 3],
    };
    assert_eq!(collection.clone(), collection);
    let standing = OfferItem {
        bidder_id: account(1),
        contract_address: account(2),
        token_id: Some(TokenId::U32(7)),
        quantity: 3,
        price_per_item: 10,
        extra: vec![9],
    };
    assert_eq!(standing.clone(), standing);
}

#[test]
fn listing_book_lists_and_unlists() {
    let mut book = ListingBook::new();
    let c = account(1);
    assert!(!book.is_listed(c, &TokenId::U8(1)));
    assert_eq!(book.get_price(c, &TokenId::U8(1)), None);
    book.list(c, TokenId::U8(1), account(2), 1000);
    assert!(book.is_listed(c, &TokenId::U8(1)));
    assert!(!book.is_listed(c, &TokenId::U16(1)));
    assert!(!book.is_listed(account(3), &TokenId::U8(1)));
    assert_eq!(book.get_price(c, &TokenId::U8(1)), Some(1000));
    assert_eq!(book.get(c, &TokenId::U8(1)), Some(Item { owner: account(2), price: 1000 }));
    assert_eq!(
        book.unlist(c, &TokenId::U8(1)),
        Some(Item { owner: account(2), price: 1000 })
    );
    assert_eq!(book.unlist(c, &TokenId::U8(1)), None);
    assert!(!book.is_listed(c, &TokenId::U8(1)));
}

#[test]
fn listing_book_relisting_replaces_seller_and_price() {
    let mut book = ListingBook::new();
    let c = account(1);
    book.list(c, TokenId::U8(1), account(2), 1000);
    book.list(c, TokenId::U8(1), account(3), 700);
    assert_eq!(book.get(c, &TokenId::U8(1)), Some(Item { owner: account(3), price: 700 }));
    book.relist(c, TokenId::U8(1), Item { owner: account(2), price: 1000 });
    assert_eq!(book.get(c, &TokenId::U8(1)), Some(Item { owner: account(2), price: 1000 }));
    assert_eq!(book.into_entries().len(), 1);
}

#[test]
fn listing_book_round_trip() {
    let mut book = ListingBook::new();
    book.list(account(1), TokenId::U8(1), account(2), 1000);
    book.list(account(1), TokenId::Bytes(vec![4]), account(3), 5);
    let again = ListingBook::from_entries(book.into_entries());
    assert_eq!(again.get_price(account(1), &TokenId::U8(1)), Some(1000));
    assert_eq!(again.get_price(account(1), &TokenId::Bytes(vec![4])), Some(5));
    assert_eq!(again.get_price(account(1), &TokenId::Bytes(vec![5])), None);
}

#[test]
fn registry_registers_once() {
    let mut registry = CollectionRegistry::new();
    let c = account(1);
    assert!(!registry.is_registered(c));
    assert_eq!(registry.get(c), None);
    assert_eq!(registry.royalty_terms(c), None);
    let terms = RegisteredCollection {
        royalty_receiver: account(2),
        royalty: 500,
        marketplace_ipfs: vec![1],
    };
    assert_eq!(registry.register(c, terms.clone()), Ok(()));
    assert!(registry.is_registered(c));
    assert_eq!(registry.get(c), Some(terms.clone()));
    assert_eq!(registry.royalty_terms(c), Some((account(2), 500)));
    let other = RegisteredCollection {
        royalty_receiver: account(3),
        royalty: 1,
        marketplace_ipfs: vec![],
    };
    assert_eq!(
        registry.register(c, other),
        Err(MarketplaceError::ContractAlreadyRegistered)
    );
    assert_eq!(registry.get(c), Some(terms));
}

#[test]
fn registry_set_metadata_keeps_royalty_terms() {
    let mut registry = CollectionRegistry::new();
    let c = account(1);
    assert_eq!(
        registry.set_metadata(c, vec![7]),
        Err(MarketplaceError::NotRegisteredContract)
    );
    registry
        .register(
            c,
            RegisteredCollection {
                royalty_receiver: account(2),
                royalty: 500,
                marketplace_ipfs: vec![1],
            },
        )
        .unwrap();
    assert_eq!(registry.set_metadata(c, vec![7, 8]), Ok(()));
    assert_eq!(
        registry.get(c),
        Some(RegisteredCollection {
            royalty_receiver: account(2),
            royalty: 500,
            marketplace_ipfs: vec![7, 8],
        })
    );
    let again = CollectionRegistry::from_entries(registry.into_entries());
    assert_eq!(again.royalty_terms(c), Some((account(2), 500)));
}

#[test]
fn ledger_balance_defaults_to_zero() {
    let ledger = EscrowLedger::new();
    assert_eq!(ledger.balance(account(1)), 0);
}

#[test]
fn ledger_credit_adds_and_checks_overflow() {
    let mut ledger = EscrowLedger::new();
    assert_eq!(ledger.credit(account(1), 500), Ok(()));
    assert_eq!(ledger.credit(account(1), 25), Ok(()));
    assert_eq!(ledger.balance(account(1)), 525);
    assert_eq!(ledger.balance(account(2)), 0);
    assert_eq!(
        ledger.credit(account(1), u128::MAX - 524),
        Err(MarketplaceError::ArithmeticOverflow)
    );
    assert_eq!(ledger.balance(account(1)), 525);
    assert_eq!(ledger.credit(account(1), u128::MAX - 525), Ok(()));
    assert_eq!(ledger.balance(account(1)), u128::MAX);
}

#[test]
fn ledger_debit_takes_at_most_the_balance() {
    let mut ledger = EscrowLedger::new();
    ledger.credit(account(1), 500).unwrap();
    assert_eq!(ledger.debit(account(1), 501), Err(MarketplaceError::BalanceInsufficient));
    assert_eq!(ledger.balance(account(1)), 500);
    assert_eq!(ledger.debit(account(1), 200), Ok(()));
    assert_eq!(ledger.balance(account(1)), 300);
    assert_eq!(ledger.debit(account(1), 300), Ok(()));
    assert_eq!(ledger.balance(account(1)), 0);
    assert_eq!(ledger.debit(account(2), 0), Ok(()));
    assert_eq!(ledger.debit(account(2), 1), Err(MarketplaceError::BalanceInsufficient));
}

#[test]
fn ledger_round_trip() {
    let mut ledger = EscrowLedger::new();
    ledger.credit(account(1), 500).unwrap();
    ledger.credit(account(2), 7).unwrap();
    let again = EscrowLedger::from_entries(ledger.into_entries());
    assert_eq!(again.balance(account(1)), 500);
    assert_eq!(again.balance(account(2)), 7);
    assert_eq!(again.balance(account(3)), 0);
}

#[test]
fn offer_book_numbers_start_at_one_and_increase() {
    let mut book = OfferBook::new();
    assert_eq!(book.get(1), None);
    assert_eq!(book.add(offer(account(1), 1, 10)), Ok(1));
    assert_eq!(book.add(offer(account(2), 2, 20)), Ok(2));
    assert_eq!(book.add(offer(account(1), 3, 30)), Ok(3));
    assert_eq!(book.terms(2), Some((account(2), 2, 20)));
    assert_eq!(book.get(3), Some(offer(account(1), 3, 30)));
    assert_eq!(book.get(4), None);
    assert_eq!(book.get(0), None);
}

#[test]
fn offer_book_does_not_reuse_numbers_after_cancel() {
    let mut book = OfferBook::new();
    assert_eq!(book.add(offer(account(1), 1, 10)), Ok(1));
    assert_eq!(book.cancel(account(1), 1), Ok(()));
    assert_eq!(book.add(offer(account(1), 1, 10)), Ok(2));
    assert_eq!(book.get(1), None);
}

#[test]
fn offer_book_cancel_is_for_the_bidder() {
    let mut book = OfferBook::new();
    book.add(offer(account(1), 1, 10)).unwrap();
    assert_eq!(book.cancel(account(2), 1), Err(MarketplaceError::NotOwner));
    assert_eq!(book.terms(1), Some((account(1), 1, 10)));
    assert_eq!(book.cancel(account(2), 9), Err(MarketplaceError::OfferNotFound));
    assert_eq!(book.cancel(account(1), 1), Ok(()));
    assert_eq!(book.cancel(account(1), 1), Err(MarketplaceError::OfferNotFound));
}

#[test]
fn offer_book_runs_out_of_numbers() {
    let mut book = OfferBook::from_entries(vec![], u128::MAX - 1);
    assert_eq!(book.add(offer(account(1), 1, 10)), Ok(u128::MAX));
    assert_eq!(
        book.add(offer(account(1), 1, 10)),
        Err(MarketplaceError::ArithmeticOverflow)
    );
    let (entries, last) = book.into_entries();
    assert_eq!(last, u128::MAX);
    assert_eq!(entries.len(), 1);
}

#[test]
fn registry_tells_whether_royalties_are_within() {
    let mut registry = CollectionRegistry::new();
    assert!(registry.royalties_within(0));
    for (n, royalty) in [(1u8, 500u16), (2, 1000), (3, 0)] {
        registry
            .register(
                account(n),
                RegisteredCollection {
                    royalty_receiver: account(9),
                    royalty,
                    marketplace_ipfs: vec![],
                },
            )
            .unwrap();
    }
    assert!(registry.royalties_within(1000));
    assert!(registry.royalties_within(u16::MAX));
    assert!(!registry.royalties_within(999));
    assert!(!registry.royalties_within(0));
}

#[test]
fn listing_book_tells_whether_all_are_registered() {
    let mut registry = CollectionRegistry::new();
    let mut book = ListingBook::new();
    assert!(book.all_registered(&registry));
    book.list(account(1), TokenId::U8(1), account(2), 10);
    assert!(!book.all_registered(&registry));
    registry
        .register(
            account(1),
            RegisteredCollection {
                royalty_receiver: account(9),
                royalty: 0,
                marketplace_ipfs: vec![],
            },
        )
        .unwrap();
    assert!(book.all_registered(&registry));
    book.list(account(1), TokenId::U8(2), account(2), 10);
    assert!(book.all_registered(&registry));
    book.list(account(3), TokenId::U8(1), account(2), 10);
    assert!(!book.all_registered(&registry));
}

#[test]
fn offer_book_tells_whether_numbers_were_given_out() {
    assert!(OfferBook::new().is_valid());
    assert!(OfferBook::from_entries(vec![(1, offer(account(1), 1, 1))], 1).is_valid());
    assert!(OfferBook::from_entries(vec![(1, offer(account(1), 1, 1))], 5).is_valid());
    assert!(!OfferBook::from_entries(vec![(1, offer(account(1), 1, 1))], 0).is_valid());
    assert!(!OfferBook::from_entries(vec![(0, offer(account(1), 1, 1))], 5).is_valid());
    assert!(!OfferBook::from_entries(
        vec![(2, offer(account(1), 1, 1)), (6, offer(account(1), 1, 1))],
        5
    )
    .is_valid());
    let mut book = OfferBook::new();
    book.add(offer(account(1), 1, 1)).unwrap();
    book.add(offer(account(1), 1, 1)).unwrap();
    book.cancel(account(1), 1).unwrap();
    assert!(book.is_valid());
}
