//! The operations of the marketplace.
//!
//! [`MarketplaceSale`] is what the marketplace offers to its callers;
//! [`Internal`] holds the checks and steps that those operations are made
//! of. Both speak of the caller and of the payment that came with the call
//! as plain arguments, and of the token registry through what it answered.
//! Each contract says what the operation does to the state and what it
//! returns, by the function of the same name over
//! [`MarketplaceState`].
use crate::collections::{optional_collection_view, registration};
use crate::events::{MarketplaceEventView, MarketplaceSaleEvents};
use crate::fees::fee_check;
use crate::listings::price_of;
use crate::model::{allowance_check, price_check, MarketplaceState};
use crate::purchase::{Payment, PurchaseOutcome, PurchaseStep};
use crate::records::{OfferItemView, RegisteredCollection, optional_token_view};
use crate::types::{AccountId, Balance, CodeHash, MarketplaceError, NftContractType, TokenId};
use vstd::prelude::*;

verus! {

/// What `sink` holds after an operation that tells of `event` where it
/// succeeds.
pub open spec fn told<T>(
    before: Seq<MarketplaceEventView>,
    result: Result<T, MarketplaceError>,
    event: MarketplaceEventView,
) -> Seq<MarketplaceEventView> {
    if result.is_ok() {
        before.push(event)
    } else {
        before
    }
}

/// The checks and steps that the marketplace's operations are made of.
pub trait Internal: View<V = MarketplaceState> + Sized {
    /// Checks that `caller` owns the asset, by the owner that the token
    /// registry reports for it, and that its collection is registered.
    fn check_token_owner(
        &self,
        caller: AccountId,
        contract_address: AccountId,
        token_owner: Option<AccountId>,
    ) -> (checked: Result<(), MarketplaceError>)
        ensures
            checked == self@.check_token_owner(caller, contract_address, token_owner),
    ;

    /// Checks that the owner has allowed the marketplace to transfer the
    /// asset, by what the token registry reports.
    fn check_token_allowance(&self, approved: bool) -> (checked: Result<(), MarketplaceError>)
        ensures
            checked == allowance_check(approved),
    ;

    /// Checks that the payment covers the price.
    fn check_price(&self, transferred_value: Balance, price: Balance) -> (checked: Result<
        (),
        MarketplaceError,
    >)
        ensures
            checked == price_check(transferred_value, price),
    ;

    /// Checks that the rate is under the ceiling.
    fn check_fee(&self, fee: u16, max_fee: u16) -> (checked: Result<(), MarketplaceError>)
        ensures
            checked == fee_check(fee, max_fee),
    ;

    /// Tells whether the asset is for sale.
    fn is_token_listed(&self, contract_address: AccountId, token_id: &TokenId) -> (listed: bool)
        ensures
            listed == self@.items.contains_key((contract_address, token_id@)),
    ;

    /// Goes on with the settlement of the purchase in flight: `outcome`
    /// tells how the transfer or the payment that it waited for came out.
    /// Tells `sink` of the asset bought once the last payment is made.
    fn transfer_token<S: MarketplaceSaleEvents>(
        &mut self,
        sink: &mut S,
        outcome: PurchaseOutcome,
    ) -> (step: PurchaseStep)
        ensures
            (final(self)@, step@) == old(self)@.transfer_token(outcome),
            final(sink).emitted() == match old(self)@.bought(outcome) {
                Some(event) => old(sink).emitted().push(event),
                None => old(sink).emitted(),
            },
    ;

    /// The code hash stored for the kind of asset contract.
    fn get_nft_contract_hash(&self, contract_type: &NftContractType) -> (hash: Result<
        CodeHash,
        MarketplaceError,
    >)
        ensures
            hash == self@.get_nft_contract_hash(*contract_type),
    ;

    /// The escrow balance of the account.
    fn get_deposit_internal(&self, account_id: AccountId) -> (balance: Balance)
        ensures
            balance == self@.get_deposit(account_id),
    ;
}

/// What the marketplace offers to its callers.
pub trait MarketplaceSale: Internal {
    /// Stores the code hash that the factory instantiates for the kind of
    /// asset contract. Only the marketplace's owner may.
    fn set_nft_contract_hash(
        &mut self,
        caller: AccountId,
        contract_type: NftContractType,
        contract_hash: CodeHash,
    ) -> (set: Result<(), MarketplaceError>)
        ensures
            (final(self)@, set) == old(self)@.set_nft_contract_hash(
                caller,
                contract_type,
                contract_hash,
            ),
    ;

    /// The code hash stored for the kind of asset contract;
    /// `NftContractHashNotSet` where none is.
    fn nft_contract_hash(&self, contract_type: NftContractType) -> (hash: Result<
        CodeHash,
        MarketplaceError,
    >)
        ensures
            hash == self@.get_nft_contract_hash(contract_type),
    ;

    /// Puts an asset up for sale at `price`, for `caller`.
    ///
    /// `token_owner` is the owner that the token registry reports for the
    /// asset and `approved` whether it reports that this owner lets the
    /// marketplace transfer it. Fails with `NotRegisteredContract`,
    /// `TokenDoesNotExist`, `NotOwner` or `TokenNotApproved`, the first that
    /// applies. A listing of the same asset that stood before is replaced.
    fn list<S: MarketplaceSaleEvents>(
        &mut self,
        sink: &mut S,
        caller: AccountId,
        contract_address: AccountId,
        token_id: TokenId,
        price: Balance,
        token_owner: Option<AccountId>,
        approved: bool,
    ) -> (listed: Result<(), MarketplaceError>)
        ensures
            (final(self)@, listed) == old(self)@.list(
                caller,
                contract_address,
                token_id@,
                price,
                token_owner,
                approved,
            ),
            final(sink).emitted() == told(
                old(sink).emitted(),
                listed,
                MarketplaceEventView::TokenListed {
                    contract: contract_address,
                    token_id: token_id@,
                    price: Some(price),
                },
            ),
    ;

    /// Takes an asset off sale.
    ///
    /// Fails with `ItemNotListedForSale` where the asset is not for sale,
    /// else as `list` does where `caller` does not own the asset.
    fn unlist<S: MarketplaceSaleEvents>(
        &mut self,
        sink: &mut S,
        caller: AccountId,
        contract_address: AccountId,
        token_id: TokenId,
        token_owner: Option<AccountId>,
    ) -> (unlisted: Result<(), MarketplaceError>)
        ensures
            (final(self)@, unlisted) == old(self)@.unlist(
                caller,
                contract_address,
                token_id@,
                token_owner,
            ),
            final(sink).emitted() == told(
                old(sink).emitted(),
                unlisted,
                MarketplaceEventView::TokenListed {
                    contract: contract_address,
                    token_id: token_id@,
                    price: None,
                },
            ),
    ;

    /// Begins the purchase of an asset by `caller`, who paid `value` with
    /// the call.
    ///
    /// Fails with `ReentrantCall` while another purchase is in flight and
    /// with `ItemNotListedForSale` where the asset is not for sale. Else
    /// the purchase is in flight, and the step returned asks for the owner
    /// of the asset.
    fn buy(
        &mut self,
        caller: AccountId,
        contract_address: AccountId,
        token_id: TokenId,
        value: Balance,
    ) -> (step: PurchaseStep)
        ensures
            (final(self)@, step@) == old(self)@.buy(caller, contract_address, token_id@, value),
    ;

    /// Goes on with the purchase in flight: `outcome` tells how the step
    /// that it waited for came out.
    ///
    /// Once the owner is known the purchase is checked: it fails with
    /// `TokenDoesNotExist`, `AlreadyOwner`, `BadBuyValue`,
    /// `NotRegisteredContract` or `ArithmeticOverflow`, the first that
    /// applies. The whole payment is split, not the price alone. After that
    /// the purchase is settled as `transfer_token` says.
    fn resume_buy<S: MarketplaceSaleEvents>(
        &mut self,
        sink: &mut S,
        outcome: PurchaseOutcome,
    ) -> (step: PurchaseStep)
        ensures
            (final(self)@, step@) == old(self)@.resume_buy(outcome),
            final(sink).emitted() == match old(self)@.bought(outcome) {
                Some(event) => old(sink).emitted().push(event),
                None => old(sink).emitted(),
            },
    ;

    /// Registers a collection with its royalty terms and metadata.
    ///
    /// `collection_owner` is the owner that the collection's own contract
    /// reports, where it was asked. Fails with `FeeTooHigh` where the
    /// royalty is above the ceiling, else with `ContractAlreadyRegistered`
    /// where the collection is registered, whoever calls, else with
    /// `NotOwner` unless `caller` owns the marketplace or the collection.
    fn register<S: MarketplaceSaleEvents>(
        &mut self,
        sink: &mut S,
        caller: AccountId,
        contract_address: AccountId,
        royalty_receiver: AccountId,
        royalty: u16,
        marketplace_ipfs: Vec<u8>,
        collection_owner: Option<AccountId>,
    ) -> (registered: Result<(), MarketplaceError>)
        ensures
            (final(self)@, registered) == old(self)@.register(
                caller,
                contract_address,
                royalty_receiver,
                royalty,
                marketplace_ipfs@,
                collection_owner,
            ),
            final(sink).emitted() == told(
                old(sink).emitted(),
                registered,
                MarketplaceEventView::CollectionRegistered { contract: contract_address },
            ),
    ;

    /// The terms of a collection, if it is registered.
    fn get_registered_collection(&self, contract_address: AccountId) -> (collection: Option<
        RegisteredCollection,
    >)
        ensures
            optional_collection_view(collection) == registration(
                self@.collections,
                contract_address,
            ),
    ;

    /// Sets the marketplace's fee rate. Fails with `NotOwner` unless
    /// `caller` owns the marketplace, else with `FeeTooHigh` where the rate
    /// is above the ceiling.
    fn set_marketplace_fee(&mut self, caller: AccountId, fee: u16) -> (set: Result<
        (),
        MarketplaceError,
    >)
        ensures
            (final(self)@, set) == old(self)@.set_marketplace_fee(caller, fee),
    ;

    /// The marketplace's fee rate.
    fn get_marketplace_fee(&self) -> (fee: u16)
        ensures
            fee == self@.fees.fee,
    ;

    /// The ceiling of the fee rate and of every royalty rate.
    fn get_max_fee(&self) -> (max_fee: u16)
        ensures
            max_fee == self@.fees.max_fee,
    ;

    /// The price asked for an asset, if it is for sale.
    fn get_price(&self, contract_address: AccountId, token_id: TokenId) -> (price: Option<Balance>)
        ensures
            price == price_of(self@.items, contract_address, token_id@),
    ;

    /// Replaces a collection's metadata and keeps its royalty terms. Any
    /// caller may: the marketplace asks for no owner here. Fails with
    /// `NotRegisteredContract` where the collection is not registered.
    fn set_contract_metadata(&mut self, contract_address: AccountId, ipfs: Vec<u8>) -> (set: Result<
        (),
        MarketplaceError,
    >)
        ensures
            (final(self)@, set) == old(self)@.set_contract_metadata(contract_address, ipfs@),
    ;

    /// The account that receives the marketplace's fee;
    /// `FeeRecipientNotSet` where none was named.
    fn get_fee_recipient(&self) -> (recipient: Result<AccountId, MarketplaceError>)
        ensures
            recipient == self@.get_fee_recipient(),
    ;

    /// Names the account that receives the marketplace's fee. Fails with
    /// `NotOwner` unless `caller` owns the marketplace.
    fn set_fee_recipient(&mut self, caller: AccountId, fee_recipient: AccountId) -> (set: Result<
        (),
        MarketplaceError,
    >)
        ensures
            (final(self)@, set) == old(self)@.set_fee_recipient(caller, fee_recipient),
    ;

    /// Credits the payment `value` that came with the call to the escrow
    /// balance of `caller`. Fails with `ArithmeticOverflow` where the sum is
    /// no balance.
    fn deposit(&mut self, caller: AccountId, value: Balance) -> (deposited: Result<
        (),
        MarketplaceError,
    >)
        ensures
            (final(self)@, deposited) == old(self)@.deposit(caller, value),
    ;

    /// Takes `amount` off the escrow balance of `caller` and returns the
    /// payment that is now owed to that account. Fails with
    /// `BalanceInsufficient` exactly when `amount` is more than the balance.
    fn withdraw(&mut self, caller: AccountId, amount: Balance) -> (owed: Result<
        Payment,
        MarketplaceError,
    >)
        ensures
            (final(self)@, owed) == old(self)@.withdraw(caller, amount),
    ;

    /// Closes a withdrawal once its payment was tried. The payment is taken
    /// as it is handed in: the marketplace keeps no record of the
    /// withdrawals that wait for their payment. A payment that was made
    /// leaves the books as they are. One that was not made is credited
    /// back and the withdrawal fails with `TransferToOwnerFailed`; where the
    /// balance cannot take the amount back, nothing changes and the error
    /// is `ArithmeticOverflow`.
    fn settle_withdrawal(&mut self, payment: Payment, paid: bool) -> (settled: Result<
        (),
        MarketplaceError,
    >)
        ensures
            (final(self)@, settled) == old(self)@.settle_withdrawal(payment, paid),
    ;

    /// The escrow balance of the account; zero where it never deposited.
    fn get_deposit(&self, account_id: AccountId) -> (balance: Balance)
        ensures
            balance == self@.get_deposit(account_id),
    ;

    /// Removes an offer for its bidder. Fails with `OfferNotFound` where no
    /// such offer stands and with `NotOwner` where `caller` is not its
    /// bidder.
    fn cancel_offer(&mut self, caller: AccountId, offer_id: u128) -> (cancelled: Result<
        (),
        MarketplaceError,
    >)
        ensures
            (final(self)@, cancelled) == old(self)@.cancel_offer(caller, offer_id),
    ;

    /// Tells whether the offer stands and the escrow balance of `caller`
    /// covers its quantity at its price. The balance is that of whoever
    /// asks, not that of the bidder.
    fn get_offer_active(&self, caller: AccountId, offer_id: u128) -> (active: bool)
        ensures
            active == self@.get_offer_active(caller, offer_id),
    ;

    /// Accepts an offer for an asset. Settlement of offers is not part of
    /// the marketplace yet: nothing changes. Fails with `OfferNotFound`
    /// where no such offer stands.
    fn accept_offer(&mut self, offer_id: u128, token_id: TokenId) -> (accepted: Result<
        (),
        MarketplaceError,
    >)
        ensures
            final(self)@ == old(self)@,
            accepted == old(self)@.accept_offer(offer_id),
    ;

    /// Fulfils an offer with an asset. Settlement of offers is not part of
    /// the marketplace yet: nothing changes, and the call succeeds.
    fn fulfill_offer(&mut self, offer_id: u128, token_id: TokenId) -> (fulfilled: Result<
        (),
        MarketplaceError,
    >)
        ensures
            final(self)@ == old(self)@,
            fulfilled == Ok::<(), MarketplaceError>(()),
    ;

    /// Makes an offer of `caller` for `quantity` assets of a collection at
    /// `price_per_item` each and returns its number.
    ///
    /// Fails with `BalanceInsufficient` exactly when the escrow balance of
    /// `caller` is less than `quantity` times `price_per_item`. The balance
    /// is checked, not set aside. The number is one more than the last
    /// given out; `ArithmeticOverflow` where none is left.
    fn make_offer<S: MarketplaceSaleEvents>(
        &mut self,
        sink: &mut S,
        caller: AccountId,
        contract_address: AccountId,
        token_id: Option<TokenId>,
        quantity: u64,
        price_per_item: Balance,
        extra: Vec<u8>,
    ) -> (offer_id: Result<u128, MarketplaceError>)
        ensures
            (final(self)@, offer_id) == old(self)@.make_offer(
                OfferItemView {
                    bidder_id: caller,
                    contract_address,
                    token_id: optional_token_view(token_id),
                    quantity,
                    price_per_item,
                    extra: extra@,
                },
            ),
            final(sink).emitted() == match offer_id {
                Ok(id) => old(sink).emitted().push(
                    MarketplaceEventView::OfferMade {
                        bidder_id: caller,
                        contract: contract_address,
                        token_id: optional_token_view(token_id),
                        quantity,
                        price_per_item,
                        extra: extra@,
                        offer_id: id,
                    },
                ),
                Err(_) => old(sink).emitted(),
            },
    ;
}

} // verus!
