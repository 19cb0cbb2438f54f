//! The collection registry: the royalty terms and metadata of each
//! collection that trades on the marketplace.
use crate::records::{RegisteredCollection, RegisteredCollectionView};
use crate::table::{lemma_entry_in_map, lemma_key_has_entry, merged, Table};
use crate::types::{AccountId, MarketplaceError};
use vstd::prelude::*;

verus! {

/// The registered collections, by the account of their contract.
pub type Collections = Map<AccountId, RegisteredCollectionView>;

/// The terms of a collection among `collections`, if it is registered.
pub open spec fn registration(
    collections: Collections,
    contract_address: AccountId,
) -> Option<RegisteredCollectionView> {
    if collections.contains_key(contract_address) {
        Some(collections[contract_address])
    } else {
        None
    }
}

/// What an optional registration stands for.
pub open spec fn optional_collection_view(
    collection: Option<RegisteredCollection>,
) -> Option<RegisteredCollectionView> {
    match collection {
        Some(c) => Some(c@),
        None => None,
    }
}

/// Every royalty rate among `collections` is at most `max_fee`.
pub open spec fn royalties_within(collections: Collections, max_fee: u16) -> bool {
    forall|contract_address: AccountId| #[trigger]
        collections.contains_key(contract_address) ==> collections[contract_address].royalty
            <= max_fee
}

/// The registered collections.
pub struct CollectionRegistry {
    collections: Table<AccountId, RegisteredCollection>,
}

impl View for CollectionRegistry {
    type V = Collections;

    closed spec fn view(&self) -> Collections {
        self.collections@
    }
}

impl CollectionRegistry {
    /// A registry without collections.
    pub fn new() -> (registry: Self)
        ensures
            registry@ == Collections::empty(),
    {
        CollectionRegistry { collections: Table::new() }
    }

    /// The registry that holds `entries`. Where a collection stands twice,
    /// its first entry is the one that counts.
    pub fn from_entries(entries: Vec<(AccountId, RegisteredCollection)>) -> (registry: Self)
        ensures
            registry@ == merged(entries@),
    {
        CollectionRegistry { collections: Table::from_entries(entries) }
    }

    /// The collections of the registry, each once.
    pub fn into_entries(self) -> (entries: Vec<(AccountId, RegisteredCollection)>)
        ensures
            merged(entries@) == self@,
    {
        self.collections.into_entries()
    }

    /// Tells whether every royalty rate is at most `max_fee`.
    pub fn royalties_within(&self, max_fee: u16) -> (within: bool)
        ensures
            within == royalties_within(self@, max_fee),
    {
        let entries = self.collections.entries();
        let mut i: usize = 0;
        while i < entries.len()
            invariant
                i <= entries@.len(),
                crate::table::distinct_keys(entries@),
                crate::table::as_map(entries@) == self.collections@,
                forall|j: int| 0 <= j < i ==> (#[trigger] entries@[j]).1.royalty <= max_fee,
            decreases entries@.len() - i,
        {
            if entries[i].1.royalty > max_fee {
                proof {
                    lemma_entry_in_map(entries@, i as int);
                }
                return false;
            }
            i += 1;
        }
        proof {
            assert forall|contract_address: AccountId| #[trigger]
                self@.contains_key(contract_address) implies self@[contract_address].royalty
                <= max_fee by {
                let j = lemma_key_has_entry(entries@, contract_address);
                lemma_entry_in_map(entries@, j);
            }
        }
        true
    }

    /// Tells whether the collection is registered.
    pub fn is_registered(&self, contract_address: AccountId) -> (registered: bool)
        ensures
            registered == self@.contains_key(contract_address),
    {
        self.collections.contains(&contract_address)
    }

    /// The terms of the collection, if it is registered.
    pub fn get(&self, contract_address: AccountId) -> (collection: Option<RegisteredCollection>)
        ensures
            optional_collection_view(collection) == registration(self@, contract_address),
    {
        match self.collections.get(&contract_address) {
            Some(collection) => Some(collection.clone()),
            None => None,
        }
    }

    /// The royalty receiver and the royalty rate of the collection, if it is
    /// registered.
    pub fn royalty_terms(&self, contract_address: AccountId) -> (terms: Option<(AccountId, u16)>)
        ensures
            terms == match registration(self@, contract_address) {
                Some(c) => Some((c.royalty_receiver, c.royalty)),
                None => None,
            },
    {
        match self.collections.get(&contract_address) {
            Some(collection) => Some((collection.royalty_receiver, collection.royalty)),
            None => None,
        }
    }

    /// Registers the collection under `collection`'s terms. Fails with
    /// `ContractAlreadyRegistered`, and changes nothing, exactly when the
    /// collection is registered already.
    pub fn register(
        &mut self,
        contract_address: AccountId,
        collection: RegisteredCollection,
    ) -> (registered: Result<(), MarketplaceError>)
        ensures
            old(self)@.contains_key(contract_address) ==> {
                &&& registered == Err::<(), MarketplaceError>(
                    MarketplaceError::ContractAlreadyRegistered,
                )
                &&& final(self)@ == old(self)@
            },
            !old(self)@.contains_key(contract_address) ==> {
                &&& registered == Ok::<(), MarketplaceError>(())
                &&& final(self)@ == old(self)@.insert(contract_address, collection@)
            },
    {
        if self.collections.contains(&contract_address) {
            Err(MarketplaceError::ContractAlreadyRegistered)
        } else {
            self.collections.insert(contract_address, collection);
            Ok(())
        }
    }

    /// Replaces the collection's metadata by `ipfs` and keeps its royalty
    /// terms. Fails with `NotRegisteredContract`, and changes nothing,
    /// exactly when the collection is not registered.
    pub fn set_metadata(
        &mut self,
        contract_address: AccountId,
        ipfs: Vec<u8>,
    ) -> (set: Result<(), MarketplaceError>)
        ensures
            match registration(old(self)@, contract_address) {
                Some(c) => {
                    &&& set == Ok::<(), MarketplaceError>(())
                    &&& final(self)@ == old(self)@.insert(
                        contract_address,
                        RegisteredCollectionView { marketplace_ipfs: ipfs@, ..c },
                    )
                },
                None => {
                    &&& set == Err::<(), MarketplaceError>(
                        MarketplaceError::NotRegisteredContract,
                    )
                    &&& final(self)@ == old(self)@
                },
            },
    {
        match self.royalty_terms(contract_address) {
            Some((royalty_receiver, royalty)) => {
                self.collections.insert(
                    contract_address,
                    RegisteredCollection { royalty_receiver, royalty, marketplace_ipfs: ipfs },
                );
                Ok(())
            },
            None => Err(MarketplaceError::NotRegisteredContract),
        }
    }
}

} // verus!
