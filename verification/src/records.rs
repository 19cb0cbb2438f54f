//! What the books hold: listings, registered collections and offers.
use crate::types::{copy_bytes, AccountId, Balance, TokenId, TokenIdView};
use vstd::prelude::*;

verus! {

/// What an optional token identifier stands for.
pub open spec fn optional_token_view(token_id: Option<TokenId>) -> Option<TokenIdView> {
    match token_id {
        Some(id) => Some(id@),
        None => None,
    }
}

/// Copies an optional token identifier.
pub fn copy_optional_token(token_id: &Option<TokenId>) -> (copy: Option<TokenId>)
    ensures
        optional_token_view(copy) == optional_token_view(*token_id),
{
    match token_id {
        Some(id) => Some(id.clone()),
        None => None,
    }
}

/// An asset for sale: who listed it, and at what price.
#[derive(Clone, Copy, Debug, PartialEq, Eq)]
pub struct Item {
    /// The account that listed the asset, its owner at that time.
    pub owner: AccountId,
    /// The price asked.
    pub price: Balance,
}

impl View for Item {
    type V = Item;

    open spec fn view(&self) -> Item {
        *self
    }
}

/// The terms under which a collection trades on the marketplace.
#[derive(Debug, PartialEq, Eq)]
pub struct RegisteredCollection {
    /// The account that receives the royalty of every sale.
    pub royalty_receiver: AccountId,
    /// The royalty rate, in basis points.
    pub royalty: u16,
    /// Where the collection's metadata is found.
    pub marketplace_ipfs: Vec<u8>,
}

/// What a [`RegisteredCollection`] stands for.
pub ghost struct RegisteredCollectionView {
    pub royalty_receiver: AccountId,
    pub royalty: u16,
    pub marketplace_ipfs: Seq<u8>,
}

impl View for RegisteredCollection {
    type V = RegisteredCollectionView;

    open spec fn view(&self) -> RegisteredCollectionView {
        RegisteredCollectionView {
            royalty_receiver: self.royalty_receiver,
            royalty: self.royalty,
            marketplace_ipfs: self.marketplace_ipfs@,
        }
    }
}

impl Clone for RegisteredCollection {
    fn clone(&self) -> (copy: Self)
        ensures
            copy@ == self@,
    {
        RegisteredCollection {
            royalty_receiver: self.royalty_receiver,
            royalty: self.royalty,
            marketplace_ipfs: copy_bytes(self.marketplace_ipfs.as_slice()),
        }
    }
}

/// A standing offer to buy, backed by the bidder's escrow balance.
#[derive(Debug, PartialEq, Eq)]
pub struct OfferItem {
    /// The account that made the offer.
    pub bidder_id: AccountId,
    /// The collection that the offer is for.
    pub contract_address: AccountId,
    /// The asset that the offer is for; `None` for any asset of the
    /// collection.
    pub token_id: Option<TokenId>,
    /// How many assets the bidder offers to buy.
    pub quantity: u64,
    /// The price offered for each.
    pub price_per_item: Balance,
    /// What the bidder attached to the offer.
    pub extra: Vec<u8>,
}

/// What an [`OfferItem`] stands for.
pub ghost struct OfferItemView {
    pub bidder_id: AccountId,
    pub contract_address: AccountId,
    pub token_id: Option<TokenIdView>,
    pub quantity: u64,
    pub price_per_item: Balance,
    pub extra: Seq<u8>,
}

impl OfferItemView {
    /// The amount that the offer commits the bidder to.
    pub open spec fn total(self) -> int {
        self.quantity * self.price_per_item
    }
}

impl View for OfferItem {
    type V = OfferItemView;

    open spec fn view(&self) -> OfferItemView {
        OfferItemView {
            bidder_id: self.bidder_id,
            contract_address: self.contract_address,
            token_id: optional_token_view(self.token_id),
            quantity: self.quantity,
            price_per_item: self.price_per_item,
            extra: self.extra@,
        }
    }
}

impl Clone for OfferItem {
    fn clone(&self) -> (copy: Self)
        ensures
            copy@ == self@,
    {
        OfferItem {
            bidder_id: self.bidder_id,
            contract_address: self.contract_address,
            token_id: copy_optional_token(&self.token_id),
            quantity: self.quantity,
            price_per_item: self.price_per_item,
            extra: copy_bytes(self.extra.as_slice()),
        }
    }
}

/// Tells whether `balance` covers `quantity` assets at `price_per_item`
/// each.
pub fn covers(balance: Balance, quantity: u64, price_per_item: Balance) -> (covered: bool)
    ensures
        covered == (quantity * price_per_item <= balance),
{
    match (quantity as u128).checked_mul(price_per_item) {
        Some(total) => total <= balance,
        None => false,
    }
}

} // verus!
