//! The listing book: the assets that are for sale, each under its
//! collection and token identifier.
use crate::records::Item;
use crate::collections::{CollectionRegistry, Collections};
use crate::table::{lemma_entry_in_map, lemma_key_has_entry, merged, Table};
use crate::types::{AccountId, AssetKey, Balance, TokenId, TokenIdView};
use vstd::prelude::*;

verus! {

/// The listings, by asset.
pub type Listings = Map<(AccountId, TokenIdView), Item>;

/// Every asset among `listings` belongs to a collection among
/// `collections`.
pub open spec fn all_registered(listings: Listings, collections: Collections) -> bool {
    forall|contract_address: AccountId, token_id: TokenIdView| #[trigger]
        listings.contains_key((contract_address, token_id)) ==> collections.contains_key(
            contract_address,
        )
}

/// The assets for sale.
pub struct ListingBook {
    items: Table<AssetKey, Item>,
}

impl View for ListingBook {
    type V = Listings;

    closed spec fn view(&self) -> Listings {
        self.items@
    }
}

impl ListingBook {
    /// A book without listings.
    pub fn new() -> (book: Self)
        ensures
            book@ == Listings::empty(),
    {
        ListingBook { items: Table::new() }
    }

    /// The book that holds `entries`. Where an asset stands twice, its first
    /// entry is the one that counts.
    pub fn from_entries(entries: Vec<(AssetKey, Item)>) -> (book: Self)
        ensures
            book@ == merged(entries@),
    {
        ListingBook { items: Table::from_entries(entries) }
    }

    /// The listings of the book, each asset once.
    pub fn into_entries(self) -> (entries: Vec<(AssetKey, Item)>)
        ensures
            merged(entries@) == self@,
    {
        self.items.into_entries()
    }

    /// Tells whether every asset for sale belongs to a collection of
    /// `registry`.
    pub fn all_registered(&self, registry: &CollectionRegistry) -> (registered: bool)
        ensures
            registered == all_registered(self@, registry@),
    {
        let entries = self.items.entries();
        let mut i: usize = 0;
        while i < entries.len()
            invariant
                i <= entries@.len(),
                crate::table::distinct_keys(entries@),
                crate::table::as_map(entries@) == self.items@,
                forall|j: int| 0 <= j < i ==> registry@.contains_key((#[trigger] entries@[j]).0.0),
            decreases entries@.len() - i,
        {
            if !registry.is_registered(entries[i].0.0) {
                proof {
                    lemma_entry_in_map(entries@, i as int);
                    assert(self@.contains_key((entries@[i as int].0.0, entries@[i as int].0.1@)));
                }
                return false;
            }
            i += 1;
        }
        proof {
            assert forall|contract_address: AccountId, token_id: TokenIdView| #[trigger]
                self@.contains_key((contract_address, token_id)) implies registry@.contains_key(
                contract_address,
            ) by {
                let j = lemma_key_has_entry(entries@, (contract_address, token_id));
            }
        }
        true
    }

    /// Lists the asset for `owner` at `price`. A listing of the same asset
    /// that stood before is replaced, seller and price.
    pub fn list(
        &mut self,
        contract_address: AccountId,
        token_id: TokenId,
        owner: AccountId,
        price: Balance,
    )
        ensures
            final(self)@ == old(self)@.insert((contract_address, token_id@), Item { owner, price }),
    {
        self.items.insert((contract_address, token_id), Item { owner, price });
    }

    /// Puts `item` back as the listing of the asset.
    pub fn relist(&mut self, contract_address: AccountId, token_id: TokenId, item: Item)
        ensures
            final(self)@ == old(self)@.insert((contract_address, token_id@), item),
    {
        self.items.insert((contract_address, token_id), item);
    }

    /// Takes the asset's listing out of the book and returns it, if there
    /// is one.
    pub fn unlist(
        &mut self,
        contract_address: AccountId,
        token_id: &TokenId,
    ) -> (item: Option<Item>)
        ensures
            final(self)@ == old(self)@.remove((contract_address, token_id@)),
            item == listing(old(self)@, contract_address, token_id@),
    {
        let key = (contract_address, token_id.clone());
        self.items.remove(&key)
    }

    /// The asset's listing, if it is for sale.
    pub fn get(&self, contract_address: AccountId, token_id: &TokenId) -> (item: Option<Item>)
        ensures
            item == listing(self@, contract_address, token_id@),
    {
        let key = (contract_address, token_id.clone());
        match self.items.get(&key) {
            Some(item) => Some(*item),
            None => None,
        }
    }

    /// The price asked for the asset, if it is for sale.
    pub fn get_price(
        &self,
        contract_address: AccountId,
        token_id: &TokenId,
    ) -> (price: Option<Balance>)
        ensures
            price == price_of(self@, contract_address, token_id@),
    {
        match self.get(contract_address, token_id) {
            Some(item) => Some(item.price),
            None => None,
        }
    }

    /// Tells whether the asset is for sale.
    pub fn is_listed(&self, contract_address: AccountId, token_id: &TokenId) -> (listed: bool)
        ensures
            listed == self@.contains_key((contract_address, token_id@)),
    {
        let key = (contract_address, token_id.clone());
        self.items.contains(&key)
    }
}

/// The listing of an asset among `listings`, if it has one.
pub open spec fn listing(
    listings: Listings,
    contract_address: AccountId,
    token_id: TokenIdView,
) -> Option<Item> {
    if listings.contains_key((contract_address, token_id)) {
        Some(listings[(contract_address, token_id)])
    } else {
        None
    }
}

/// The price asked for an asset among `listings`, if it is for sale.
pub open spec fn price_of(
    listings: Listings,
    contract_address: AccountId,
    token_id: TokenIdView,
) -> Option<Balance> {
    match listing(listings, contract_address, token_id) {
        Some(item) => Some(item.price),
        None => None,
    }
}

} // verus!
