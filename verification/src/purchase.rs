//! A purchase in flight.
//!
//! Buying an asset takes work outside the books: the token registry says
//! who owns the asset and moves it to the buyer, and three payments go out.
//! The marketplace decides, and whoever drives it acts: each call returns
//! the next [`PurchaseStep`] to perform, and the outcome of that step comes
//! back as a [`PurchaseOutcome`]. While a purchase is in flight no other can
//! begin.
use crate::collections::Collections;
use crate::fees::Split;
use crate::records::Item;
use crate::types::{AccountId, Balance, MarketplaceError, TokenId, TokenIdView};
use vstd::prelude::*;

verus! {

/// The outside step that a purchase under settlement waits for.
#[derive(Clone, Copy, Debug, PartialEq, Eq, Structural)]
pub enum Stage {
    /// The transfer of the asset to the buyer.
    Transfer,
    /// The payment to the seller.
    SellerPayment,
    /// The payment of the marketplace's fee.
    MarketplacePayment,
    /// The payment of the author's royalty.
    AuthorPayment,
}

/// How far a purchase has come.
#[derive(Clone, Copy, Debug, PartialEq, Eq)]
pub enum Progress {
    /// The token registry is being asked who owns the asset.
    ResolvingOwner,
    /// The purchase passed every check and is being settled.
    Settling {
        /// The step that is awaited.
        stage: Stage,
        /// The owner of the asset when the purchase was checked.
        seller: AccountId,
        /// The account that receives the royalty.
        royalty_receiver: AccountId,
        /// The payment received, divided.
        split: Split,
    },
}

/// A purchase in flight.
#[derive(Debug, PartialEq, Eq)]
pub struct Purchase {
    /// The account that buys.
    pub buyer: AccountId,
    /// The collection of the asset.
    pub contract_address: AccountId,
    /// The asset within its collection.
    pub token_id: TokenId,
    /// The payment that came with the request, all of it.
    pub value: Balance,
    /// The listing as it stood when the purchase began.
    pub item: Item,
    /// How far the purchase has come.
    pub progress: Progress,
}

/// What a [`Purchase`] stands for.
pub ghost struct PurchaseView {
    pub buyer: AccountId,
    pub contract_address: AccountId,
    pub token_id: TokenIdView,
    pub value: Balance,
    pub item: Item,
    pub progress: Progress,
}

impl PurchaseView {
    /// The purchase is for a collection among `collections` and, once it
    /// is being settled, pays out exactly what it received.
    pub open spec fn valid_in(self, collections: Collections) -> bool {
        &&& collections.contains_key(self.contract_address)
        &&& match self.progress {
            Progress::ResolvingOwner => true,
            Progress::Settling { split, .. } => split.marketplace_fee + split.author_royalty
                + split.seller_fee == self.value,
        }
    }
}

impl View for Purchase {
    type V = PurchaseView;

    open spec fn view(&self) -> PurchaseView {
        PurchaseView {
            buyer: self.buyer,
            contract_address: self.contract_address,
            token_id: self.token_id@,
            value: self.value,
            item: self.item,
            progress: self.progress,
        }
    }
}

/// What an optional purchase stands for.
pub open spec fn optional_purchase_view(purchase: Option<Purchase>) -> Option<PurchaseView> {
    match purchase {
        Some(p) => Some(p@),
        None => None,
    }
}

/// An amount to pay out to an account.
#[derive(Clone, Copy, Debug, PartialEq, Eq)]
pub struct Payment {
    /// The account to pay.
    pub to: AccountId,
    /// The amount to pay.
    pub amount: Balance,
}

/// What is to happen next in a purchase.
#[derive(Debug, PartialEq, Eq)]
pub enum PurchaseStep {
    /// Ask the token registry who owns the asset.
    ResolveOwner { contract_address: AccountId, token_id: TokenId },
    /// Ask the token registry to transfer the asset from `from` to `to`.
    TransferToken {
        contract_address: AccountId,
        token_id: TokenId,
        from: AccountId,
        to: AccountId,
    },
    /// Pay out of the payment received.
    Pay(Payment),
    /// The purchase has ended, as the result says.
    Done(Result<(), MarketplaceError>),
}

/// What a [`PurchaseStep`] stands for.
pub ghost enum PurchaseStepView {
    ResolveOwner { contract_address: AccountId, token_id: TokenIdView },
    TransferToken {
        contract_address: AccountId,
        token_id: TokenIdView,
        from: AccountId,
        to: AccountId,
    },
    Pay(Payment),
    Done(Result<(), MarketplaceError>),
}

impl View for PurchaseStep {
    type V = PurchaseStepView;

    open spec fn view(&self) -> PurchaseStepView {
        match *self {
            PurchaseStep::ResolveOwner { contract_address, token_id } => {
                PurchaseStepView::ResolveOwner { contract_address, token_id: token_id@ }
            },
            PurchaseStep::TransferToken { contract_address, token_id, from, to } => {
                PurchaseStepView::TransferToken { contract_address, token_id: token_id@, from, to }
            },
            PurchaseStep::Pay(payment) => PurchaseStepView::Pay(payment),
            PurchaseStep::Done(result) => PurchaseStepView::Done(result),
        }
    }
}

/// How the step that a purchase waited for came out.
#[derive(Clone, Copy, Debug, PartialEq, Eq)]
pub enum PurchaseOutcome {
    /// The token registry named the owner of the asset, or knows none.
    OwnerResolved(Option<AccountId>),
    /// The token registry transferred the asset, or did not.
    TokenTransferred(bool),
    /// The payment was made, or was not.
    Paid(bool),
}

} // verus!
