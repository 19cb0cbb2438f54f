//! The offer book: standing offers to buy, each under a number of its own.
//!
//! Numbers are given out in increasing order, starting at 1, and never
//! twice.
use crate::records::{OfferItem, OfferItemView};
use crate::table::{lemma_entry_in_map, lemma_key_has_entry, merged, Table};
use crate::types::{AccountId, MarketplaceError};
use vstd::prelude::*;

verus! {

/// What an [`OfferBook`] stands for.
pub ghost struct Offers {
    /// The standing offers, by number.
    pub items: Map<u128, OfferItemView>,
    /// The number given out last; 0 before the first.
    pub last_offer_id: u128,
}

impl Offers {
    /// The offer under `offer_id`, if one stands.
    pub open spec fn get(self, offer_id: u128) -> Option<OfferItemView> {
        if self.items.contains_key(offer_id) {
            Some(self.items[offer_id])
        } else {
            None
        }
    }

    /// Tells whether `offer_id` was given out before.
    pub open spec fn issued(self, offer_id: u128) -> bool {
        1 <= offer_id <= self.last_offer_id
    }

    /// Every standing offer has a number that was given out.
    pub open spec fn valid(self) -> bool {
        forall|offer_id: u128| #[trigger]
            self.items.contains_key(offer_id) ==> self.issued(offer_id)
    }

    /// The book after `offer` was added, and the number it got, or the error
    /// where no number is left.
    pub open spec fn add(self, offer: OfferItemView) -> (Offers, Result<u128, MarketplaceError>) {
        if self.last_offer_id < u128::MAX {
            let offer_id = (self.last_offer_id + 1) as u128;
            (
                Offers { items: self.items.insert(offer_id, offer), last_offer_id: offer_id },
                Ok(offer_id),
            )
        } else {
            (self, Err(MarketplaceError::ArithmeticOverflow))
        }
    }

    /// The book after `caller` asked to cancel the offer under `offer_id`,
    /// and whether that was done.
    pub open spec fn cancel(
        self,
        caller: AccountId,
        offer_id: u128,
    ) -> (Offers, Result<(), MarketplaceError>) {
        match self.get(offer_id) {
            None => (self, Err(MarketplaceError::OfferNotFound)),
            Some(offer) => if offer.bidder_id != caller {
                (self, Err(MarketplaceError::NotOwner))
            } else {
                (Offers { items: self.items.remove(offer_id), ..self }, Ok(()))
            },
        }
    }
}

/// The standing offers.
pub struct OfferBook {
    offers: Table<u128, OfferItem>,
    last_offer_id: u128,
}

impl View for OfferBook {
    type V = Offers;

    closed spec fn view(&self) -> Offers {
        Offers { items: self.offers@, last_offer_id: self.last_offer_id }
    }
}

impl OfferBook {
    /// A book without offers, in which no number was given out.
    pub fn new() -> (book: Self)
        ensures
            book@ == (Offers { items: Map::<u128, OfferItemView>::empty(), last_offer_id: 0 }),
    {
        OfferBook { offers: Table::new(), last_offer_id: 0 }
    }

    /// The book that holds the offers `entries`, in which `last_offer_id`
    /// was the number given out last. Where a number stands twice, its first
    /// entry is the one that counts.
    pub fn from_entries(entries: Vec<(u128, OfferItem)>, last_offer_id: u128) -> (book: Self)
        ensures
            book@ == (Offers { items: merged(entries@), last_offer_id }),
    {
        OfferBook { offers: Table::from_entries(entries), last_offer_id }
    }

    /// The offers of the book, each number once, and the number given out
    /// last.
    pub fn into_entries(self) -> (parts: (Vec<(u128, OfferItem)>, u128))
        ensures
            (Offers { items: merged(parts.0@), last_offer_id: parts.1 }) == self@,
    {
        (self.offers.into_entries(), self.last_offer_id)
    }

    /// Tells whether every standing offer has a number that was given out.
    pub fn is_valid(&self) -> (valid: bool)
        ensures
            valid == self@.valid(),
    {
        let entries = self.offers.entries();
        let mut i: usize = 0;
        while i < entries.len()
            invariant
                i <= entries@.len(),
                crate::table::distinct_keys(entries@),
                crate::table::as_map(entries@) == self.offers@,
                forall|j: int| 0 <= j < i ==> 1 <= (#[trigger] entries@[j]).0 <= self.last_offer_id,
            decreases entries@.len() - i,
        {
            let offer_id = entries[i].0;
            if offer_id < 1 || offer_id > self.last_offer_id {
                proof {
                    lemma_entry_in_map(entries@, i as int);
                    assert(entries@[i as int].0@ == offer_id);
                    assert(self@.items.contains_key(offer_id));
                }
                return false;
            }
            i += 1;
        }
        proof {
            assert forall|offer_id: u128| #[trigger]
                self@.items.contains_key(offer_id) implies self@.issued(offer_id) by {
                let j = lemma_key_has_entry(entries@, offer_id);
            }
        }
        true
    }

    /// The bidder, the quantity and the price per item of the offer under
    /// `offer_id`, if one stands.
    pub fn terms(&self, offer_id: u128) -> (terms: Option<(AccountId, u64, u128)>)
        ensures
            terms == match self@.get(offer_id) {
                Some(offer) => Some((offer.bidder_id, offer.quantity, offer.price_per_item)),
                None => None,
            },
    {
        match self.offers.get(&offer_id) {
            Some(offer) => Some((offer.bidder_id, offer.quantity, offer.price_per_item)),
            None => None,
        }
    }

    /// The offer under `offer_id`, if one stands.
    pub fn get(&self, offer_id: u128) -> (offer: Option<OfferItem>)
        ensures
            match offer {
                Some(o) => self@.get(offer_id) == Some(o@),
                None => self@.get(offer_id).is_none(),
            },
    {
        match self.offers.get(&offer_id) {
            Some(offer) => Some(offer.clone()),
            None => None,
        }
    }

    /// Adds `offer` under the next number and returns that number. Fails
    /// with `ArithmeticOverflow`, and changes nothing, exactly when every
    /// number was given out.
    pub fn add(&mut self, offer: OfferItem) -> (offer_id: Result<u128, MarketplaceError>)
        ensures
            (final(self)@, offer_id) == old(self)@.add(offer@),
    {
        match self.last_offer_id.checked_add(1) {
            Some(offer_id) => {
                self.last_offer_id = offer_id;
                self.offers.insert(offer_id, offer);
                Ok(offer_id)
            },
            None => Err(MarketplaceError::ArithmeticOverflow),
        }
    }

    /// Removes the offer under `offer_id` for its bidder. Fails, and changes
    /// nothing, with `OfferNotFound` where no such offer stands and with
    /// `NotOwner` where `caller` is not its bidder.
    pub fn cancel(
        &mut self,
        caller: AccountId,
        offer_id: u128,
    ) -> (cancelled: Result<(), MarketplaceError>)
        ensures
            (final(self)@, cancelled) == old(self)@.cancel(caller, offer_id),
    {
        match self.terms(offer_id) {
            None => Err(MarketplaceError::OfferNotFound),
            Some((bidder_id, _, _)) => {
                if bidder_id != caller {
                    Err(MarketplaceError::NotOwner)
                } else {
                    self.offers.remove(&offer_id);
                    Ok(())
                }
            },
        }
    }
}

} // verus!
