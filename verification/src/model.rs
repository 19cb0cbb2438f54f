//! The marketplace as a mathematical state, and each operation as a
//! function from the state before to the state after and the result.
//!
//! The executable marketplace promises, operation by operation, to do what
//! these functions say. A failed operation leaves the state as it was.
use crate::collections::{registration, royalties_within, Collections};
use crate::escrow::{balance_of, no_deposits, Deposits};
use crate::events::MarketplaceEventView;
use crate::fees::{split_of, splittable, FeeConfig};
use crate::listings::{all_registered, listing, Listings};
use crate::offers::Offers;
use crate::purchase::{Payment, Progress, PurchaseOutcome, PurchaseStepView, PurchaseView, Stage};
use crate::records::{Item, OfferItemView, RegisteredCollectionView};
use crate::types::{AccountId, Balance, CodeHash, MarketplaceError, NftContractType, TokenIdView};
use vstd::prelude::*;

verus! {

/// Everything that the marketplace keeps.
pub ghost struct MarketplaceState {
    /// The account that owns the marketplace.
    pub owner: AccountId,
    /// The fee terms.
    pub fees: FeeConfig,
    /// The registered collections.
    pub collections: Collections,
    /// The assets for sale.
    pub items: Listings,
    /// The escrow balances.
    pub deposits: Deposits,
    /// The standing offers.
    pub offers: Offers,
    /// The code hash stored for each kind of asset contract.
    pub nft_contract_hash: Map<NftContractType, CodeHash>,
    /// The purchase in flight, if there is one.
    pub purchase: Option<PurchaseView>,
}

/// The result of checking a payment of `transferred_value` against `price`.
pub open spec fn price_check(
    transferred_value: Balance,
    price: Balance,
) -> Result<(), MarketplaceError> {
    if transferred_value >= price {
        Ok(())
    } else {
        Err(MarketplaceError::BadBuyValue)
    }
}

/// The result of checking the allowance that the token registry reported.
pub open spec fn allowance_check(approved: bool) -> Result<(), MarketplaceError> {
    if approved {
        Ok(())
    } else {
        Err(MarketplaceError::TokenNotApproved)
    }
}

/// The result of an operation that only the account `owner` may ask for.
pub open spec fn owner_check(owner: AccountId, caller: AccountId) -> Result<(), MarketplaceError> {
    if owner == caller {
        Ok(())
    } else {
        Err(MarketplaceError::NotOwner)
    }
}

impl MarketplaceState {
    /// What holds of the state of every marketplace: the fee rate and every
    /// royalty rate are under the ceiling, every asset for sale belongs to a
    /// registered collection, every account has an escrow balance, every
    /// standing offer has a number that was given out, and a purchase in
    /// flight is for a registered collection and pays out exactly what it
    /// received.
    pub open spec fn valid(self) -> bool {
        &&& self.fees.fee <= self.fees.max_fee
        &&& forall|account: AccountId| #[trigger] self.deposits.contains_key(account)
        &&& royalties_within(self.collections, self.fees.max_fee)
        &&& all_registered(self.items, self.collections)
        &&& self.offers.valid()
        &&& match self.purchase {
            Some(purchase) => purchase.valid_in(self.collections),
            None => true,
        }
    }

    /// The state of a marketplace that `owner` has just set up.
    pub open spec fn initial(owner: AccountId, fee: u16, max_fee: u16) -> MarketplaceState {
        MarketplaceState {
            owner,
            fees: FeeConfig { fee, max_fee, fee_recipient: None },
            collections: Map::empty(),
            items: Map::empty(),
            deposits: no_deposits(),
            offers: Offers { items: Map::empty(), last_offer_id: 0 },
            nft_contract_hash: Map::empty(),
            purchase: None,
        }
    }

    /// Whether `caller` may list or unlist an asset of the collection, given
    /// the owner that the token registry reports for the asset.
    pub open spec fn check_token_owner(
        self,
        caller: AccountId,
        contract_address: AccountId,
        token_owner: Option<AccountId>,
    ) -> Result<(), MarketplaceError> {
        if !self.collections.contains_key(contract_address) {
            Err(MarketplaceError::NotRegisteredContract)
        } else {
            match token_owner {
                None => Err(MarketplaceError::TokenDoesNotExist),
                Some(owner) => owner_check(owner, caller),
            }
        }
    }

    /// Tells whether listing an asset of the collection depends on the owner
    /// that the token registry names for it.
    pub open spec fn list_asks_owner(self, contract_address: AccountId) -> bool {
        self.collections.contains_key(contract_address)
    }

    /// Tells whether listing an asset depends on the allowance that the
    /// token registry reports: it does once `caller` is known to own the
    /// asset.
    pub open spec fn list_asks_allowance(
        self,
        caller: AccountId,
        contract_address: AccountId,
        token_owner: Option<AccountId>,
    ) -> bool {
        self.check_token_owner(caller, contract_address, token_owner).is_ok()
    }

    /// Tells whether taking an asset off sale depends on the owner that the
    /// token registry names for it.
    pub open spec fn unlist_asks_owner(
        self,
        contract_address: AccountId,
        token_id: TokenIdView,
    ) -> bool {
        self.items.contains_key((contract_address, token_id)) && self.collections.contains_key(
            contract_address,
        )
    }

    /// Tells whether registering a collection depends on the owner that the
    /// collection's own contract names.
    pub open spec fn register_asks_owner(
        self,
        caller: AccountId,
        contract_address: AccountId,
        royalty: u16,
    ) -> bool {
        &&& royalty <= self.fees.max_fee
        &&& !self.collections.contains_key(contract_address)
        &&& self.owner != caller
    }

    /// Listing an asset.
    pub open spec fn list(
        self,
        caller: AccountId,
        contract_address: AccountId,
        token_id: TokenIdView,
        price: Balance,
        token_owner: Option<AccountId>,
        approved: bool,
    ) -> (MarketplaceState, Result<(), MarketplaceError>) {
        match self.check_token_owner(caller, contract_address, token_owner) {
            Err(e) => (self, Err(e)),
            Ok(_) => match allowance_check(approved) {
                Err(e) => (self, Err(e)),
                Ok(_) => (
                    MarketplaceState {
                        items: self.items.insert(
                            (contract_address, token_id),
                            Item { owner: caller, price },
                        ),
                        ..self
                    },
                    Ok(()),
                ),
            },
        }
    }

    /// Taking an asset off sale.
    pub open spec fn unlist(
        self,
        caller: AccountId,
        contract_address: AccountId,
        token_id: TokenIdView,
        token_owner: Option<AccountId>,
    ) -> (MarketplaceState, Result<(), MarketplaceError>) {
        if !self.items.contains_key((contract_address, token_id)) {
            (self, Err(MarketplaceError::ItemNotListedForSale))
        } else {
            match self.check_token_owner(caller, contract_address, token_owner) {
                Err(e) => (self, Err(e)),
                Ok(_) => (
                    MarketplaceState {
                        items: self.items.remove((contract_address, token_id)),
                        ..self
                    },
                    Ok(()),
                ),
            }
        }
    }

    /// Registering a collection. `collection_owner` is the owner that the
    /// collection's own contract reports, where it was asked. A collection
    /// that is registered cannot be registered again, whoever asks.
    pub open spec fn register(
        self,
        caller: AccountId,
        contract_address: AccountId,
        royalty_receiver: AccountId,
        royalty: u16,
        marketplace_ipfs: Seq<u8>,
        collection_owner: Option<AccountId>,
    ) -> (MarketplaceState, Result<(), MarketplaceError>) {
        if royalty > self.fees.max_fee {
            (self, Err(MarketplaceError::FeeTooHigh))
        } else if self.collections.contains_key(contract_address) {
            (self, Err(MarketplaceError::ContractAlreadyRegistered))
        } else if self.owner != caller && collection_owner != Some(caller) {
            (self, Err(MarketplaceError::NotOwner))
        } else {
            (
                MarketplaceState {
                    collections: self.collections.insert(
                        contract_address,
                        RegisteredCollectionView { royalty_receiver, royalty, marketplace_ipfs },
                    ),
                    ..self
                },
                Ok(()),
            )
        }
    }

    /// Replacing a collection's metadata.
    pub open spec fn set_contract_metadata(self, contract_address: AccountId, ipfs: Seq<u8>) -> (
        MarketplaceState,
        Result<(), MarketplaceError>,
    ) {
        match registration(self.collections, contract_address) {
            None => (self, Err(MarketplaceError::NotRegisteredContract)),
            Some(collection) => (
                MarketplaceState {
                    collections: self.collections.insert(
                        contract_address,
                        RegisteredCollectionView { marketplace_ipfs: ipfs, ..collection },
                    ),
                    ..self
                },
                Ok(()),
            ),
        }
    }

    /// Setting the marketplace's fee rate.
    pub open spec fn set_marketplace_fee(self, caller: AccountId, fee: u16) -> (
        MarketplaceState,
        Result<(), MarketplaceError>,
    ) {
        if self.owner != caller {
            (self, Err(MarketplaceError::NotOwner))
        } else if fee > self.fees.max_fee {
            (self, Err(MarketplaceError::FeeTooHigh))
        } else {
            (MarketplaceState { fees: FeeConfig { fee, ..self.fees }, ..self }, Ok(()))
        }
    }

    /// Naming the account that receives the marketplace's fee.
    pub open spec fn set_fee_recipient(self, caller: AccountId, fee_recipient: AccountId) -> (
        MarketplaceState,
        Result<(), MarketplaceError>,
    ) {
        if self.owner != caller {
            (self, Err(MarketplaceError::NotOwner))
        } else {
            (
                MarketplaceState {
                    fees: FeeConfig { fee_recipient: Some(fee_recipient), ..self.fees },
                    ..self
                },
                Ok(()),
            )
        }
    }

    /// The account that receives the marketplace's fee.
    pub open spec fn get_fee_recipient(self) -> Result<AccountId, MarketplaceError> {
        match self.fees.fee_recipient {
            Some(account) => Ok(account),
            None => Err(MarketplaceError::FeeRecipientNotSet),
        }
    }

    /// Storing the code hash for a kind of asset contract.
    pub open spec fn set_nft_contract_hash(
        self,
        caller: AccountId,
        contract_type: NftContractType,
        contract_hash: CodeHash,
    ) -> (MarketplaceState, Result<(), MarketplaceError>) {
        if self.owner != caller {
            (self, Err(MarketplaceError::NotOwner))
        } else {
            (
                MarketplaceState {
                    nft_contract_hash: self.nft_contract_hash.insert(contract_type, contract_hash),
                    ..self
                },
                Ok(()),
            )
        }
    }

    /// The code hash stored for a kind of asset contract.
    pub open spec fn get_nft_contract_hash(self, contract_type: NftContractType) -> Result<
        CodeHash,
        MarketplaceError,
    > {
        if self.nft_contract_hash.contains_key(contract_type) {
            Ok(self.nft_contract_hash[contract_type])
        } else {
            Err(MarketplaceError::NftContractHashNotSet)
        }
    }

    /// The escrow balance of `account`.
    pub open spec fn get_deposit(self, account: AccountId) -> Balance {
        balance_of(self.deposits, account)
    }

    /// Crediting the payment `value` that came with the call to `caller`.
    pub open spec fn deposit(self, caller: AccountId, value: Balance) -> (
        MarketplaceState,
        Result<(), MarketplaceError>,
    ) {
        if self.get_deposit(caller) + value > Balance::MAX {
            (self, Err(MarketplaceError::ArithmeticOverflow))
        } else {
            (
                MarketplaceState {
                    deposits: self.deposits.insert(
                        caller,
                        (self.get_deposit(caller) + value) as Balance,
                    ),
                    ..self
                },
                Ok(()),
            )
        }
    }

    /// Debiting `amount` from `caller`, to be paid out to that account.
    pub open spec fn withdraw(self, caller: AccountId, amount: Balance) -> (
        MarketplaceState,
        Result<Payment, MarketplaceError>,
    ) {
        if amount > self.get_deposit(caller) {
            (self, Err(MarketplaceError::BalanceInsufficient))
        } else {
            (
                MarketplaceState {
                    deposits: self.deposits.insert(
                        caller,
                        (self.get_deposit(caller) - amount) as Balance,
                    ),
                    ..self
                },
                Ok(Payment { to: caller, amount }),
            )
        }
    }

    /// Closing a withdrawal once its payment was tried: a payment that was
    /// not made is credited back.
    pub open spec fn settle_withdrawal(self, payment: Payment, paid: bool) -> (
        MarketplaceState,
        Result<(), MarketplaceError>,
    ) {
        if paid {
            (self, Ok(()))
        } else if self.get_deposit(payment.to) + payment.amount > Balance::MAX {
            (self, Err(MarketplaceError::ArithmeticOverflow))
        } else {
            (
                MarketplaceState {
                    deposits: self.deposits.insert(
                        payment.to,
                        (self.get_deposit(payment.to) + payment.amount) as Balance,
                    ),
                    ..self
                },
                Err(MarketplaceError::TransferToOwnerFailed),
            )
        }
    }

    /// Making an offer.
    pub open spec fn make_offer(self, offer: OfferItemView) -> (
        MarketplaceState,
        Result<u128, MarketplaceError>,
    ) {
        if offer.total() > self.get_deposit(offer.bidder_id) {
            (self, Err(MarketplaceError::BalanceInsufficient))
        } else {
            (
                MarketplaceState { offers: self.offers.add(offer).0, ..self },
                self.offers.add(offer).1,
            )
        }
    }

    /// Cancelling an offer.
    pub open spec fn cancel_offer(self, caller: AccountId, offer_id: u128) -> (
        MarketplaceState,
        Result<(), MarketplaceError>,
    ) {
        (
            MarketplaceState { offers: self.offers.cancel(caller, offer_id).0, ..self },
            self.offers.cancel(caller, offer_id).1,
        )
    }

    /// Whether the offer under `offer_id` stands and the escrow balance of
    /// `caller` covers it.
    pub open spec fn get_offer_active(self, caller: AccountId, offer_id: u128) -> bool {
        match self.offers.get(offer_id) {
            Some(offer) => offer.total() <= self.get_deposit(caller),
            None => false,
        }
    }

    /// The result of accepting an offer.
    pub open spec fn accept_offer(self, offer_id: u128) -> Result<(), MarketplaceError> {
        match self.offers.get(offer_id) {
            Some(_) => Ok(()),
            None => Err(MarketplaceError::OfferNotFound),
        }
    }

    /// The state once the purchase in flight has ended.
    pub open spec fn released(self) -> MarketplaceState {
        MarketplaceState { purchase: None, ..self }
    }

    /// The state once the purchase in flight has ended and the listing that
    /// it took out is back.
    pub open spec fn rolled_back(self, purchase: PurchaseView) -> MarketplaceState {
        MarketplaceState {
            purchase: None,
            items: self.items.insert((purchase.contract_address, purchase.token_id), purchase.item),
            ..self
        }
    }

    /// Beginning a purchase.
    pub open spec fn buy(
        self,
        caller: AccountId,
        contract_address: AccountId,
        token_id: TokenIdView,
        value: Balance,
    ) -> (MarketplaceState, PurchaseStepView) {
        if self.purchase.is_some() {
            (self, PurchaseStepView::Done(Err(MarketplaceError::ReentrantCall)))
        } else {
            match listing(self.items, contract_address, token_id) {
                None => (self, PurchaseStepView::Done(Err(MarketplaceError::ItemNotListedForSale))),
                Some(item) => (
                    MarketplaceState {
                        purchase: Some(
                            PurchaseView {
                                buyer: caller,
                                contract_address,
                                token_id,
                                value,
                                item,
                                progress: Progress::ResolvingOwner,
                            },
                        ),
                        ..self
                    },
                    PurchaseStepView::ResolveOwner { contract_address, token_id },
                ),
            }
        }
    }

    /// The checks that a purchase passes once the owner of the asset is
    /// known, and the terms of its settlement.
    pub open spec fn check_purchase(
        self,
        purchase: PurchaseView,
        token_owner: Option<AccountId>,
    ) -> Result<Progress, MarketplaceError> {
        match token_owner {
            None => Err(MarketplaceError::TokenDoesNotExist),
            Some(seller) => if seller == purchase.buyer {
                Err(MarketplaceError::AlreadyOwner)
            } else if purchase.value < purchase.item.price {
                Err(MarketplaceError::BadBuyValue)
            } else {
                match registration(self.collections, purchase.contract_address) {
                    None => Err(MarketplaceError::NotRegisteredContract),
                    Some(collection) => if !splittable(
                        purchase.value as int,
                        self.fees.fee as int,
                        collection.royalty as int,
                    ) {
                        Err(MarketplaceError::ArithmeticOverflow)
                    } else {
                        Ok(
                            Progress::Settling {
                                stage: Stage::Transfer,
                                seller,
                                royalty_receiver: collection.royalty_receiver,
                                split: split_of(purchase.value, self.fees.fee, collection.royalty),
                            },
                        )
                    },
                }
            },
        }
    }

    /// Going on with the purchase in flight once the token registry has
    /// named the owner of the asset: the purchase is checked and, where it
    /// passes, its settlement begins with the transfer of the asset.
    pub open spec fn settle_purchase(self, token_owner: Option<AccountId>) -> (
        MarketplaceState,
        PurchaseStepView,
    ) {
        match self.purchase {
            None => (self, PurchaseStepView::Done(Err(MarketplaceError::UnexpectedOutcome))),
            Some(purchase) => match purchase.progress {
                Progress::Settling { .. } => (
                    self,
                    PurchaseStepView::Done(Err(MarketplaceError::UnexpectedOutcome)),
                ),
                Progress::ResolvingOwner => match self.check_purchase(purchase, token_owner) {
                    Err(e) => (self.released(), PurchaseStepView::Done(Err(e))),
                    Ok(progress) => (
                        MarketplaceState {
                            purchase: Some(PurchaseView { progress, ..purchase }),
                            ..self
                        },
                        PurchaseStepView::TransferToken {
                            contract_address: purchase.contract_address,
                            token_id: purchase.token_id,
                            from: token_owner.unwrap(),
                            to: purchase.buyer,
                        },
                    ),
                },
            },
        }
    }

    /// The state in which the purchase in flight waits for `stage`.
    pub open spec fn awaiting(self, stage: Stage) -> MarketplaceState {
        match self.purchase {
            Some(purchase) => match purchase.progress {
                Progress::Settling { seller, royalty_receiver, split, .. } => MarketplaceState {
                    purchase: Some(
                        PurchaseView {
                            progress: Progress::Settling { stage, seller, royalty_receiver, split },
                            ..purchase
                        },
                    ),
                    ..self
                },
                Progress::ResolvingOwner => self,
            },
            None => self,
        }
    }

    /// Going on with the settlement of the purchase in flight once the
    /// transfer or the payment it waited for came out as `outcome`. The
    /// asset goes to the buyer first and its listing leaves the book; then
    /// the seller, the marketplace and the author are paid, in that order.
    /// Where a step fails the purchase ends, and the listing is put back if
    /// it was taken out.
    pub open spec fn transfer_token(self, outcome: PurchaseOutcome) -> (
        MarketplaceState,
        PurchaseStepView,
    ) {
        match self.purchase {
            None => (self, PurchaseStepView::Done(Err(MarketplaceError::UnexpectedOutcome))),
            Some(purchase) => match (purchase.progress, outcome) {
                (
                    Progress::Settling { stage: Stage::Transfer, seller, split, .. },
                    PurchaseOutcome::TokenTransferred(transferred),
                ) => if !transferred {
                    (
                        self.released(),
                        PurchaseStepView::Done(Err(MarketplaceError::UnableToTransferToken)),
                    )
                } else {
                    (
                        MarketplaceState {
                            items: self.items.remove(
                                (purchase.contract_address, purchase.token_id),
                            ),
                            ..self.awaiting(Stage::SellerPayment)
                        },
                        PurchaseStepView::Pay(Payment { to: seller, amount: split.seller_fee }),
                    )
                },
                (
                    Progress::Settling { stage: Stage::SellerPayment, split, .. },
                    PurchaseOutcome::Paid(paid),
                ) => if !paid {
                    (
                        self.rolled_back(purchase),
                        PurchaseStepView::Done(Err(MarketplaceError::TransferToOwnerFailed)),
                    )
                } else {
                    match self.fees.fee_recipient {
                        None => (
                            self.rolled_back(purchase),
                            PurchaseStepView::Done(Err(MarketplaceError::FeeRecipientNotSet)),
                        ),
                        Some(fee_recipient) => (
                            self.awaiting(Stage::MarketplacePayment),
                            PurchaseStepView::Pay(
                                Payment { to: fee_recipient, amount: split.marketplace_fee },
                            ),
                        ),
                    }
                },
                (
                    Progress::Settling {
                        stage: Stage::MarketplacePayment,
                        royalty_receiver,
                        split,
                        ..
                    },
                    PurchaseOutcome::Paid(paid),
                ) => if !paid {
                    (
                        self.rolled_back(purchase),
                        PurchaseStepView::Done(Err(MarketplaceError::TransferToMarketplaceFailed)),
                    )
                } else {
                    (
                        self.awaiting(Stage::AuthorPayment),
                        PurchaseStepView::Pay(
                            Payment { to: royalty_receiver, amount: split.author_royalty },
                        ),
                    )
                },
                (
                    Progress::Settling { stage: Stage::AuthorPayment, .. },
                    PurchaseOutcome::Paid(paid),
                ) => if !paid {
                    (
                        self.rolled_back(purchase),
                        PurchaseStepView::Done(Err(MarketplaceError::TransferToAuthorFailed)),
                    )
                } else {
                    (self.released(), PurchaseStepView::Done(Ok(())))
                },
                _ => (self, PurchaseStepView::Done(Err(MarketplaceError::UnexpectedOutcome))),
            },
        }
    }

    /// Going on with the purchase in flight once the step it waited for
    /// came out as `outcome`.
    pub open spec fn resume_buy(
        self,
        outcome: PurchaseOutcome,
    ) -> (MarketplaceState, PurchaseStepView) {
        match outcome {
            PurchaseOutcome::OwnerResolved(token_owner) => self.settle_purchase(token_owner),
            _ => self.transfer_token(outcome),
        }
    }

    /// The notification that going on with the purchase in flight sends:
    /// that of the asset bought, once the last payment is made.
    pub open spec fn bought(self, outcome: PurchaseOutcome) -> Option<MarketplaceEventView> {
        match self.purchase {
            Some(purchase) => match (purchase.progress, outcome) {
                (
                    Progress::Settling { stage: Stage::AuthorPayment, .. },
                    PurchaseOutcome::Paid(true),
                ) => Some(
                    MarketplaceEventView::TokenBought {
                        contract: purchase.contract_address,
                        token_id: purchase.token_id,
                        price: purchase.value,
                    },
                ),
                _ => None,
            },
            None => None,
        }
    }
}

/// A call that can change the state of the marketplace, with its
/// arguments.
pub ghost enum Operation {
    SetNftContractHash {
        caller: AccountId,
        contract_type: NftContractType,
        contract_hash: CodeHash,
    },
    List {
        caller: AccountId,
        contract_address: AccountId,
        token_id: TokenIdView,
        price: Balance,
        token_owner: Option<AccountId>,
        approved: bool,
    },
    Unlist {
        caller: AccountId,
        contract_address: AccountId,
        token_id: TokenIdView,
        token_owner: Option<AccountId>,
    },
    Buy { caller: AccountId, contract_address: AccountId, token_id: TokenIdView, value: Balance },
    ResumeBuy { outcome: PurchaseOutcome },
    Register {
        caller: AccountId,
        contract_address: AccountId,
        royalty_receiver: AccountId,
        royalty: u16,
        marketplace_ipfs: Seq<u8>,
        collection_owner: Option<AccountId>,
    },
    SetMarketplaceFee { caller: AccountId, fee: u16 },
    SetContractMetadata { contract_address: AccountId, ipfs: Seq<u8> },
    SetFeeRecipient { caller: AccountId, fee_recipient: AccountId },
    Deposit { caller: AccountId, value: Balance },
    Withdraw { caller: AccountId, amount: Balance },
    SettleWithdrawal { payment: Payment, paid: bool },
    MakeOffer { offer: OfferItemView },
    CancelOffer { caller: AccountId, offer_id: u128 },
}

impl MarketplaceState {
    /// The state after the call `operation`.
    pub open spec fn after(self, operation: Operation) -> MarketplaceState {
        match operation {
            Operation::SetNftContractHash { caller, contract_type, contract_hash } => {
                self.set_nft_contract_hash(caller, contract_type, contract_hash).0
            },
            Operation::List {
                caller,
                contract_address,
                token_id,
                price,
                token_owner,
                approved,
            } => self.list(caller, contract_address, token_id, price, token_owner, approved).0,
            Operation::Unlist { caller, contract_address, token_id, token_owner } => {
                self.unlist(caller, contract_address, token_id, token_owner).0
            },
            Operation::Buy { caller, contract_address, token_id, value } => {
                self.buy(caller, contract_address, token_id, value).0
            },
            Operation::ResumeBuy { outcome } => self.resume_buy(outcome).0,
            Operation::Register {
                caller,
                contract_address,
                royalty_receiver,
                royalty,
                marketplace_ipfs,
                collection_owner,
            } => {
                self.register(
                    caller,
                    contract_address,
                    royalty_receiver,
                    royalty,
                    marketplace_ipfs,
                    collection_owner,
                ).0
            },
            Operation::SetMarketplaceFee { caller, fee } => self.set_marketplace_fee(caller, fee).0,
            Operation::SetContractMetadata { contract_address, ipfs } => {
                self.set_contract_metadata(contract_address, ipfs).0
            },
            Operation::SetFeeRecipient { caller, fee_recipient } => {
                self.set_fee_recipient(caller, fee_recipient).0
            },
            Operation::Deposit { caller, value } => self.deposit(caller, value).0,
            Operation::Withdraw { caller, amount } => self.withdraw(caller, amount).0,
            Operation::SettleWithdrawal { payment, paid } => {
                self.settle_withdrawal(payment, paid).0
            },
            Operation::MakeOffer { offer } => self.make_offer(offer).0,
            Operation::CancelOffer { caller, offer_id } => self.cancel_offer(caller, offer_id).0,
        }
    }
}

impl MarketplaceState {
    /// The error with which the call `operation` fails, if it fails. A step
    /// of a purchase fails where it ends the purchase with an error.
    pub open spec fn error_of(self, operation: Operation) -> Option<MarketplaceError> {
        match operation {
            Operation::SetNftContractHash { caller, contract_type, contract_hash } => {
                self.set_nft_contract_hash(caller, contract_type, contract_hash).1.err()
            },
            Operation::List {
                caller,
                contract_address,
                token_id,
                price,
                token_owner,
                approved,
            } => {
                self.list(caller, contract_address, token_id, price, token_owner, approved).1.err()
            },
            Operation::Unlist { caller, contract_address, token_id, token_owner } => {
                self.unlist(caller, contract_address, token_id, token_owner).1.err()
            },
            Operation::Buy { caller, contract_address, token_id, value } => {
                match self.buy(caller, contract_address, token_id, value).1 {
                    PurchaseStepView::Done(result) => result.err(),
                    _ => None,
                }
            },
            Operation::ResumeBuy { outcome } => match self.resume_buy(outcome).1 {
                PurchaseStepView::Done(result) => result.err(),
                _ => None,
            },
            Operation::Register {
                caller,
                contract_address,
                royalty_receiver,
                royalty,
                marketplace_ipfs,
                collection_owner,
            } => {
                self.register(
                    caller,
                    contract_address,
                    royalty_receiver,
                    royalty,
                    marketplace_ipfs,
                    collection_owner,
                ).1.err()
            },
            Operation::SetMarketplaceFee { caller, fee } => {
                self.set_marketplace_fee(caller, fee).1.err()
            },
            Operation::SetContractMetadata { contract_address, ipfs } => {
                self.set_contract_metadata(contract_address, ipfs).1.err()
            },
            Operation::SetFeeRecipient { caller, fee_recipient } => {
                self.set_fee_recipient(caller, fee_recipient).1.err()
            },
            Operation::Deposit { caller, value } => self.deposit(caller, value).1.err(),
            Operation::Withdraw { caller, amount } => self.withdraw(caller, amount).1.err(),
            Operation::SettleWithdrawal { payment, paid } => {
                self.settle_withdrawal(payment, paid).1.err()
            },
            Operation::MakeOffer { offer } => self.make_offer(offer).1.err(),
            Operation::CancelOffer { caller, offer_id } => {
                self.cancel_offer(caller, offer_id).1.err()
            },
        }
    }
}

/// How the steps of a purchase that happen outside the books come out.
pub ghost struct Outside {
    /// The owner that the token registry names for the asset.
    pub token_owner: Option<AccountId>,
    /// Whether the token registry transfers the asset.
    pub transferred: bool,
    /// Whether the payment to the seller is made.
    pub seller_paid: bool,
    /// Whether the payment to the marketplace is made.
    pub marketplace_paid: bool,
    /// Whether the payment to the author is made.
    pub author_paid: bool,
}

/// A purchase from its request to its end.
pub ghost struct PurchaseRun {
    /// The state at the end.
    pub state: MarketplaceState,
    /// The steps that the marketplace asked for, the last of them `Done`.
    pub steps: Seq<PurchaseStepView>,
}

impl PurchaseRun {
    /// Tells whether the run has ended: its last step is `Done`.
    pub open spec fn ended(self) -> bool {
        self.steps.len() > 0 && self.steps.last() is Done
    }

    /// How the purchase ended. It speaks of a run that has ended; of one
    /// that still waits for a step it says `Ok`, which means nothing.
    pub open spec fn result(self) -> Result<(), MarketplaceError>
        recommends
            self.ended(),
    {
        match self.steps.last() {
            PurchaseStepView::Done(result) => result,
            _ => Ok(()),
        }
    }

    /// The run that goes on from `self` once the step it waited for came
    /// out as `outcome`, unless it has ended.
    pub open spec fn go_on(self, outcome: PurchaseOutcome) -> PurchaseRun {
        match self.steps.last() {
            PurchaseStepView::Done(_) => self,
            _ => PurchaseRun {
                state: self.state.resume_buy(outcome).0,
                steps: self.steps.push(self.state.resume_buy(outcome).1),
            },
        }
    }
}

impl MarketplaceState {
    /// The purchase of an asset by `caller`, who paid `value`, driven to its
    /// end: each step that the marketplace asks for is performed and comes
    /// out as `outside` says.
    pub open spec fn purchase(
        self,
        caller: AccountId,
        contract_address: AccountId,
        token_id: TokenIdView,
        value: Balance,
        outside: Outside,
    ) -> PurchaseRun {
        PurchaseRun {
            state: self.buy(caller, contract_address, token_id, value).0,
            steps: seq![self.buy(caller, contract_address, token_id, value).1],
        }.go_on(PurchaseOutcome::OwnerResolved(outside.token_owner)).go_on(
            PurchaseOutcome::TokenTransferred(outside.transferred),
        ).go_on(PurchaseOutcome::Paid(outside.seller_paid)).go_on(
            PurchaseOutcome::Paid(outside.marketplace_paid),
        ).go_on(PurchaseOutcome::Paid(outside.author_paid))
    }

    /// How the purchase of an asset ends: with the first of the errors that
    /// applies, or well.
    pub open spec fn purchase_result(
        self,
        caller: AccountId,
        contract_address: AccountId,
        token_id: TokenIdView,
        value: Balance,
        outside: Outside,
    ) -> Result<(), MarketplaceError> {
        let key = (contract_address, token_id);
        if self.purchase.is_some() {
            Err(MarketplaceError::ReentrantCall)
        } else if !self.items.contains_key(key) {
            Err(MarketplaceError::ItemNotListedForSale)
        } else if outside.token_owner.is_none() {
            Err(MarketplaceError::TokenDoesNotExist)
        } else if outside.token_owner == Some(caller) {
            Err(MarketplaceError::AlreadyOwner)
        } else if value < self.items[key].price {
            Err(MarketplaceError::BadBuyValue)
        } else if !self.collections.contains_key(contract_address) {
            Err(MarketplaceError::NotRegisteredContract)
        } else if !splittable(
            value as int,
            self.fees.fee as int,
            self.collections[contract_address].royalty as int,
        ) {
            Err(MarketplaceError::ArithmeticOverflow)
        } else if !outside.transferred {
            Err(MarketplaceError::UnableToTransferToken)
        } else if !outside.seller_paid {
            Err(MarketplaceError::TransferToOwnerFailed)
        } else if self.fees.fee_recipient.is_none() {
            Err(MarketplaceError::FeeRecipientNotSet)
        } else if !outside.marketplace_paid {
            Err(MarketplaceError::TransferToMarketplaceFailed)
        } else if !outside.author_paid {
            Err(MarketplaceError::TransferToAuthorFailed)
        } else {
            Ok(())
        }
    }
}

} // verus!
