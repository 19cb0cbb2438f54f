//! Notifications of what changed, and the sink that carries them to
//! whoever observes the marketplace.
//!
//! The marketplace hands each notification to a sink. What a sink does with
//! it is its own affair; the books never depend on it.
use crate::records::optional_token_view;
use crate::types::{AccountId, Balance, TokenId, TokenIdView};
use vstd::prelude::*;

verus! {

/// A notification of a change to the books.
#[allow(inconsistent_fields)]
#[derive(Debug, PartialEq, Eq)]
pub enum MarketplaceEvent {
    /// An asset was listed at `price`, or taken off sale where `price` is
    /// `None`.
    TokenListed { contract: AccountId, token_id: TokenId, price: Option<Balance> },
    /// An asset was bought for `price`.
    TokenBought { contract: AccountId, token_id: TokenId, price: Balance },
    /// A collection was registered.
    CollectionRegistered { contract: AccountId },
    /// An offer was made.
    OfferMade {
        bidder_id: AccountId,
        contract: AccountId,
        token_id: Option<TokenId>,
        quantity: u64,
        price_per_item: Balance,
        extra: Vec<u8>,
        offer_id: u128,
    },
}

/// What a [`MarketplaceEvent`] stands for.
#[allow(inconsistent_fields)]
pub ghost enum MarketplaceEventView {
    TokenListed { contract: AccountId, token_id: TokenIdView, price: Option<Balance> },
    TokenBought { contract: AccountId, token_id: TokenIdView, price: Balance },
    CollectionRegistered { contract: AccountId },
    OfferMade {
        bidder_id: AccountId,
        contract: AccountId,
        token_id: Option<TokenIdView>,
        quantity: u64,
        price_per_item: Balance,
        extra: Seq<u8>,
        offer_id: u128,
    },
}

impl View for MarketplaceEvent {
    type V = MarketplaceEventView;

    open spec fn view(&self) -> MarketplaceEventView {
        match *self {
            MarketplaceEvent::TokenListed { contract, token_id, price } => {
                MarketplaceEventView::TokenListed { contract, token_id: token_id@, price }
            },
            MarketplaceEvent::TokenBought { contract, token_id, price } => {
                MarketplaceEventView::TokenBought { contract, token_id: token_id@, price }
            },
            MarketplaceEvent::CollectionRegistered { contract } => {
                MarketplaceEventView::CollectionRegistered { contract }
            },
            MarketplaceEvent::OfferMade {
                bidder_id,
                contract,
                token_id,
                quantity,
                price_per_item,
                extra,
                offer_id,
            } => MarketplaceEventView::OfferMade {
                bidder_id,
                contract,
                token_id: optional_token_view(token_id),
                quantity,
                price_per_item,
                extra: extra@,
                offer_id,
            },
        }
    }
}

/// A sink for the marketplace's notifications.
///
/// `emitted` is everything that the sink was handed so far, in order. Each
/// method hands it one notification more. What the marketplace promises of
/// its notifications holds of every sink that keeps this promise;
/// [`EventLog`] is proved to keep it.
pub trait MarketplaceSaleEvents {
    /// The notifications handed to the sink so far.
    spec fn emitted(&self) -> Seq<MarketplaceEventView>;

    /// Tells that an asset was listed at `price`, or taken off sale where
    /// `price` is `None`.
    fn emit_token_listed_event(
        &mut self,
        contract: AccountId,
        token_id: TokenId,
        price: Option<Balance>,
    )
        ensures
            final(self).emitted() == old(self).emitted().push(
                MarketplaceEventView::TokenListed { contract, token_id: token_id@, price },
            ),
    ;

    /// Tells that an asset was bought for `price`.
    fn emit_token_bought_event(&mut self, contract: AccountId, token_id: TokenId, price: Balance)
        ensures
            final(self).emitted() == old(self).emitted().push(
                MarketplaceEventView::TokenBought { contract, token_id: token_id@, price },
            ),
    ;

    /// Tells that an offer was made.
    fn emit_make_offer_event(
        &mut self,
        bidder_id: AccountId,
        contract: AccountId,
        token_id: Option<TokenId>,
        quantity: u64,
        price_per_item: Balance,
        extra: Vec<u8>,
        offer_id: u128,
    )
        ensures
            final(self).emitted() == old(self).emitted().push(
                MarketplaceEventView::OfferMade {
                    bidder_id,
                    contract,
                    token_id: optional_token_view(token_id),
                    quantity,
                    price_per_item,
                    extra: extra@,
                    offer_id,
                },
            ),
    ;

    /// Tells that a collection was registered.
    fn emit_collection_registered_event(&mut self, contract: AccountId)
        ensures
            final(self).emitted() == old(self).emitted().push(
                MarketplaceEventView::CollectionRegistered { contract },
            ),
    ;
}

/// A sink that keeps what it is handed.
pub struct EventLog {
    events: Vec<MarketplaceEvent>,
}

/// What a sequence of notifications stands for.
pub open spec fn events_view(events: Seq<MarketplaceEvent>) -> Seq<MarketplaceEventView> {
    events.map_values(|event: MarketplaceEvent| event@)
}

impl EventLog {
    /// A log that holds nothing yet.
    pub fn new() -> (log: Self)
        ensures
            log.emitted() == Seq::<MarketplaceEventView>::empty(),
    {
        let log = EventLog { events: Vec::new() };
        assert(log.emitted() =~= Seq::<MarketplaceEventView>::empty());
        log
    }

    /// The notifications that the log holds, oldest first.
    pub fn events(&self) -> (events: &Vec<MarketplaceEvent>)
        ensures
            events_view(events@) == self.emitted(),
    {
        &self.events
    }

    /// Appends `event`.
    fn record(&mut self, event: MarketplaceEvent)
        ensures
            final(self).emitted() == old(self).emitted().push(event@),
    {
        self.events.push(event);
        assert(self.emitted() =~= old(self).emitted().push(event@));
    }
}

impl MarketplaceSaleEvents for EventLog {
    closed spec fn emitted(&self) -> Seq<MarketplaceEventView> {
        events_view(self.events@)
    }

    fn emit_token_listed_event(
        &mut self,
        contract: AccountId,
        token_id: TokenId,
        price: Option<Balance>,
    ) {
        self.record(MarketplaceEvent::TokenListed { contract, token_id, price });
    }

    fn emit_token_bought_event(&mut self, contract: AccountId, token_id: TokenId, price: Balance) {
        self.record(MarketplaceEvent::TokenBought { contract, token_id, price });
    }

    fn emit_make_offer_event(
        &mut self,
        bidder_id: AccountId,
        contract: AccountId,
        token_id: Option<TokenId>,
        quantity: u64,
        price_per_item: Balance,
        extra: Vec<u8>,
        offer_id: u128,
    ) {
        self.record(
            MarketplaceEvent::OfferMade {
                bidder_id,
                contract,
                token_id,
                quantity,
                price_per_item,
                extra,
                offer_id,
            },
        );
    }

    fn emit_collection_registered_event(&mut self, contract: AccountId) {
        self.record(MarketplaceEvent::CollectionRegistered { contract });
    }
}

} // verus!
