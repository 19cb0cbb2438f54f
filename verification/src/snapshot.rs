//! The marketplace laid out as plain values, to be stored and brought back.
use crate::escrow::filled;
use crate::fees::FeeConfig;
use crate::model::MarketplaceState;
use crate::offers::Offers;
use crate::purchase::{optional_purchase_view, Purchase};
use crate::records::{Item, OfferItem, RegisteredCollection};
use crate::table::merged;
use crate::types::{AccountId, AssetKey, Balance, CodeHash, NftContractType};
use vstd::prelude::*;

verus! {

/// Everything that a marketplace keeps, as plain values. In each list the
/// first entry under a key is the one that counts.
#[derive(Debug, PartialEq, Eq)]
pub struct Snapshot {
    /// The account that owns the marketplace.
    pub owner: AccountId,
    /// The marketplace's fee rate.
    pub fee: u16,
    /// The ceiling of the fee rate and of every royalty rate.
    pub max_fee: u16,
    /// The account that receives the marketplace's fee, once it is set.
    pub fee_recipient: Option<AccountId>,
    /// The registered collections.
    pub collections: Vec<(AccountId, RegisteredCollection)>,
    /// The assets for sale.
    pub items: Vec<(AssetKey, Item)>,
    /// The escrow balances that are not zero, and some that may be.
    pub deposits: Vec<(AccountId, Balance)>,
    /// The standing offers.
    pub offers: Vec<(u128, OfferItem)>,
    /// The number given to an offer last.
    pub last_offer_id: u128,
    /// The code hash stored for each kind of asset contract.
    pub nft_contract_hash: Vec<(NftContractType, CodeHash)>,
    /// The purchase in flight, if there is one.
    pub purchase: Option<Purchase>,
}

impl View for Snapshot {
    type V = MarketplaceState;

    open spec fn view(&self) -> MarketplaceState {
        MarketplaceState {
            owner: self.owner,
            fees: FeeConfig {
                fee: self.fee,
                max_fee: self.max_fee,
                fee_recipient: self.fee_recipient,
            },
            collections: merged(self.collections@),
            items: merged(self.items@),
            deposits: filled(merged(self.deposits@)),
            offers: Offers { items: merged(self.offers@), last_offer_id: self.last_offer_id },
            nft_contract_hash: merged(self.nft_contract_hash@),
            purchase: optional_purchase_view(self.purchase),
        }
    }
}

} // verus!
