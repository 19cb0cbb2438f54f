//! The marketplace: its books, and the operations on them.
use crate::collections::CollectionRegistry;
use crate::escrow::EscrowLedger;
use crate::events::MarketplaceSaleEvents;
use crate::fees::{check_fee, split_payment, FeeEngine};
use crate::listings::ListingBook;
use crate::model::{owner_check, MarketplaceState};
use crate::offers::OfferBook;
use crate::purchase::{
    optional_purchase_view, Payment, Progress, Purchase, PurchaseOutcome, PurchaseStep,
    PurchaseStepView, Stage,
};
use crate::records::{copy_optional_token, covers, OfferItem, RegisteredCollection};
use crate::sale::{Internal, MarketplaceSale};
use crate::snapshot::Snapshot;
use crate::table::Table;
use crate::types::{
    copy_bytes, AccountId, Balance, CodeHash, MarketplaceError, NftContractType, TokenId,
};
use vstd::prelude::*;

verus! {

/// A marketplace: the fee terms, the registered collections, the assets for
/// sale, the escrow balances, the standing offers and the purchase in
/// flight, if there is one.
pub struct Marketplace {
    owner: AccountId,
    fees: FeeEngine,
    collections: CollectionRegistry,
    listings: ListingBook,
    escrow: EscrowLedger,
    offers: OfferBook,
    contract_hashes: Table<NftContractType, CodeHash>,
    purchase: Option<Purchase>,
}

impl View for Marketplace {
    type V = MarketplaceState;

    closed spec fn view(&self) -> MarketplaceState {
        MarketplaceState {
            owner: self.owner,
            fees: self.fees@,
            collections: self.collections@,
            items: self.listings@,
            deposits: self.escrow@,
            offers: self.offers@,
            nft_contract_hash: self.contract_hashes@,
            purchase: optional_purchase_view(self.purchase),
        }
    }
}

impl Marketplace {
    /// A marketplace that `owner` owns, with the fee rate `fee`, the ceiling
    /// `max_fee` and empty books. Fails with `FeeTooHigh` exactly when `fee`
    /// is above `max_fee`.
    pub fn new(owner: AccountId, fee: u16, max_fee: u16) -> (marketplace: Result<
        Self,
        MarketplaceError,
    >)
        ensures
            match marketplace {
                Ok(m) => {
                    &&& fee <= max_fee
                    &&& m@ == MarketplaceState::initial(owner, fee, max_fee)
                    &&& m@.valid()
                },
                Err(e) => fee > max_fee && e == MarketplaceError::FeeTooHigh,
            },
    {
        let fees = FeeEngine::new(fee, max_fee)?;
        Ok(
            Marketplace {
                owner,
                fees,
                collections: CollectionRegistry::new(),
                listings: ListingBook::new(),
                escrow: EscrowLedger::new(),
                offers: OfferBook::new(),
                contract_hashes: Table::new(),
                purchase: None,
            },
        )
    }

    /// The marketplace that `snapshot` lays out. Fails with
    /// `InvalidSnapshot` exactly when what it lays out is not a valid state.
    pub fn restore(snapshot: Snapshot) -> (marketplace: Result<Self, MarketplaceError>)
        ensures
            match marketplace {
                Ok(m) => snapshot@.valid() && m@ == snapshot@,
                Err(e) => !snapshot@.valid() && e == MarketplaceError::InvalidSnapshot,
            },
    {
        let ghost state = snapshot@;
        let mut fees = match FeeEngine::new(snapshot.fee, snapshot.max_fee) {
            Ok(fees) => fees,
            Err(_) => {
                return Err(MarketplaceError::InvalidSnapshot);
            },
        };
        match snapshot.fee_recipient {
            Some(account) => {
                fees.set_recipient(account);
            },
            None => {},
        }
        let market = Marketplace {
            owner: snapshot.owner,
            fees,
            collections: CollectionRegistry::from_entries(snapshot.collections),
            listings: ListingBook::from_entries(snapshot.items),
            escrow: EscrowLedger::from_entries(snapshot.deposits),
            offers: OfferBook::from_entries(snapshot.offers, snapshot.last_offer_id),
            contract_hashes: Table::from_entries(snapshot.nft_contract_hash),
            purchase: snapshot.purchase,
        };
        assert(market@ == state);
        if market.is_valid() {
            Ok(market)
        } else {
            Err(MarketplaceError::InvalidSnapshot)
        }
    }

    /// Tells whether the purchase in flight, if there is one, is for a
    /// registered collection and pays out exactly what it received.
    fn purchase_is_valid(&self) -> (valid: bool)
        ensures
            valid == match self@.purchase {
                Some(purchase) => purchase.valid_in(self@.collections),
                None => true,
            },
    {
        match &self.purchase {
            None => true,
            Some(purchase) => {
                if !self.collections.is_registered(purchase.contract_address) {
                    return false;
                }
                match purchase.progress {
                    Progress::ResolvingOwner => true,
                    Progress::Settling { split, .. } => {
                        match split.marketplace_fee.checked_add(split.author_royalty) {
                            Some(taken) => match taken.checked_add(split.seller_fee) {
                                Some(paid_out) => paid_out == purchase.value,
                                None => false,
                            },
                            None => false,
                        }
                    },
                }
            },
        }
    }

    /// Tells whether the marketplace is in a valid state.
    pub fn is_valid(&self) -> (valid: bool)
        ensures
            valid == self@.valid(),
    {
        proof {
            self.escrow.lemma_every_account_has_a_balance();
        }
        let config = self.fees.config();
        self.collections.royalties_within(config.max_fee) && self.listings.all_registered(
            &self.collections,
        ) && self.offers.is_valid() && self.purchase_is_valid()
    }

    /// The marketplace laid out as plain values. Restoring them gives the
    /// same marketplace.
    pub fn snapshot(self) -> (snapshot: Snapshot)
        ensures
            snapshot@ == self@,
    {
        let config = self.fees.config();
        let (offers, last_offer_id) = self.offers.into_entries();
        Snapshot {
            owner: self.owner,
            fee: config.fee,
            max_fee: config.max_fee,
            fee_recipient: config.fee_recipient,
            collections: self.collections.into_entries(),
            items: self.listings.into_entries(),
            deposits: self.escrow.into_entries(),
            offers,
            last_offer_id,
            nft_contract_hash: self.contract_hashes.into_entries(),
            purchase: self.purchase,
        }
    }

    /// The account that owns the marketplace.
    pub fn owner(&self) -> (owner: AccountId)
        ensures
            owner == self@.owner,
    {
        self.owner
    }

    /// Tells whether a purchase is in flight.
    pub fn is_buying(&self) -> (buying: bool)
        ensures
            buying == self@.purchase.is_some(),
    {
        self.purchase.is_some()
    }

    /// Tells whether listing an asset of the collection depends on the owner
    /// that the token registry names for it. Where it does not, the
    /// registry need not be asked.
    pub fn list_asks_owner(&self, contract_address: AccountId) -> (asks: bool)
        ensures
            asks == self@.list_asks_owner(contract_address),
    {
        self.collections.is_registered(contract_address)
    }

    /// Tells whether listing an asset depends on the allowance that the
    /// token registry reports, given the owner that it named.
    pub fn list_asks_allowance(
        &self,
        caller: AccountId,
        contract_address: AccountId,
        token_owner: Option<AccountId>,
    ) -> (asks: bool)
        ensures
            asks == self@.list_asks_allowance(caller, contract_address, token_owner),
    {
        self.check_token_owner(caller, contract_address, token_owner).is_ok()
    }

    /// Tells whether taking an asset off sale depends on the owner that the
    /// token registry names for it.
    pub fn unlist_asks_owner(&self, contract_address: AccountId, token_id: &TokenId) -> (asks: bool)
        ensures
            asks == self@.unlist_asks_owner(contract_address, token_id@),
    {
        self.listings.is_listed(contract_address, token_id) && self.collections.is_registered(
            contract_address,
        )
    }

    /// Tells whether registering a collection depends on the owner that the
    /// collection's own contract names.
    pub fn register_asks_owner(
        &self,
        caller: AccountId,
        contract_address: AccountId,
        royalty: u16,
    ) -> (asks: bool)
        ensures
            asks == self@.register_asks_owner(caller, contract_address, royalty),
    {
        royalty <= self.fees.config().max_fee && !self.collections.is_registered(contract_address)
            && self.owner != caller
    }

    /// Fails with `NotOwner` unless `caller` owns the marketplace.
    fn only_owner(&self, caller: AccountId) -> (checked: Result<(), MarketplaceError>)
        ensures
            checked == owner_check(self@.owner, caller),
    {
        if self.owner == caller {
            Ok(())
        } else {
            Err(MarketplaceError::NotOwner)
        }
    }

    /// Checks the purchase in flight against the owner that the token
    /// registry named, and begins its settlement where it passes.
    fn settle_purchase(&mut self, token_owner: Option<AccountId>) -> (step: PurchaseStep)
        ensures
            (final(self)@, step@) == old(self)@.settle_purchase(token_owner),
    {
        let purchase = match self.purchase.take() {
            Some(purchase) => purchase,
            None => {
                return PurchaseStep::Done(Err(MarketplaceError::UnexpectedOutcome));
            },
        };
        match purchase.progress {
            Progress::Settling { .. } => {
                self.purchase = Some(purchase);
                PurchaseStep::Done(Err(MarketplaceError::UnexpectedOutcome))
            },
            Progress::ResolvingOwner => {
                let seller = match token_owner {
                    Some(seller) => seller,
                    None => {
                        return PurchaseStep::Done(Err(MarketplaceError::TokenDoesNotExist));
                    },
                };
                if seller == purchase.buyer {
                    return PurchaseStep::Done(Err(MarketplaceError::AlreadyOwner));
                }
                if let Err(e) = self.check_price(purchase.value, purchase.item.price) {
                    return PurchaseStep::Done(Err(e));
                }
                let (royalty_receiver, royalty) = match self.collections.royalty_terms(
                    purchase.contract_address,
                ) {
                    Some(terms) => terms,
                    None => {
                        return PurchaseStep::Done(Err(MarketplaceError::NotRegisteredContract));
                    },
                };
                let split = match split_payment(purchase.value, self.fees.config().fee, royalty) {
                    Ok(split) => split,
                    Err(e) => {
                        return PurchaseStep::Done(Err(e));
                    },
                };
                let step = PurchaseStep::TransferToken {
                    contract_address: purchase.contract_address,
                    token_id: purchase.token_id.clone(),
                    from: seller,
                    to: purchase.buyer,
                };
                self.purchase = Some(
                    Purchase {
                        progress: Progress::Settling {
                            stage: Stage::Transfer,
                            seller,
                            royalty_receiver,
                            split,
                        },
                        ..purchase
                    },
                );
                step
            },
        }
    }

    /// Ends the purchase `purchase` with the error `e` and puts back the
    /// listing that it took out.
    fn roll_back(&mut self, purchase: Purchase, e: MarketplaceError) -> (step: PurchaseStep)
        requires
            old(self)@.purchase.is_none(),
        ensures
            final(self)@ == old(self)@.rolled_back(purchase@),
            step@ == PurchaseStepView::Done(Err(e)),
    {
        self.listings.relist(purchase.contract_address, purchase.token_id, purchase.item);
        PurchaseStep::Done(Err(e))
    }
}

impl Internal for Marketplace {
    fn check_token_owner(
        &self,
        caller: AccountId,
        contract_address: AccountId,
        token_owner: Option<AccountId>,
    ) -> (checked: Result<(), MarketplaceError>) {
        if !self.collections.is_registered(contract_address) {
            return Err(MarketplaceError::NotRegisteredContract);
        }
        match token_owner {
            Some(owner) => {
                if caller == owner {
                    Ok(())
                } else {
                    Err(MarketplaceError::NotOwner)
                }
            },
            None => Err(MarketplaceError::TokenDoesNotExist),
        }
    }

    fn check_token_allowance(&self, approved: bool) -> (checked: Result<(), MarketplaceError>) {
        match approved {
            false => Err(MarketplaceError::TokenNotApproved),
            true => Ok(()),
        }
    }

    fn check_price(&self, transferred_value: Balance, price: Balance) -> (checked: Result<
        (),
        MarketplaceError,
    >) {
        if transferred_value >= price {
            Ok(())
        } else {
            Err(MarketplaceError::BadBuyValue)
        }
    }

    fn check_fee(&self, fee: u16, max_fee: u16) -> (checked: Result<(), MarketplaceError>) {
        check_fee(fee, max_fee)
    }

    fn is_token_listed(&self, contract_address: AccountId, token_id: &TokenId) -> (listed: bool) {
        self.listings.is_listed(contract_address, token_id)
    }

    fn transfer_token<S: MarketplaceSaleEvents>(
        &mut self,
        sink: &mut S,
        outcome: PurchaseOutcome,
    ) -> (step: PurchaseStep) {
        let purchase = match self.purchase.take() {
            Some(purchase) => purchase,
            None => {
                return PurchaseStep::Done(Err(MarketplaceError::UnexpectedOutcome));
            },
        };
        let (stage, seller, royalty_receiver, split) = match purchase.progress {
            Progress::Settling { stage, seller, royalty_receiver, split } => (
                stage,
                seller,
                royalty_receiver,
                split,
            ),
            Progress::ResolvingOwner => {
                self.purchase = Some(purchase);
                return PurchaseStep::Done(Err(MarketplaceError::UnexpectedOutcome));
            },
        };
        match (stage, outcome) {
            (Stage::Transfer, PurchaseOutcome::TokenTransferred(transferred)) => {
                if !transferred {
                    return PurchaseStep::Done(Err(MarketplaceError::UnableToTransferToken));
                }
                self.listings.unlist(purchase.contract_address, &purchase.token_id);
                self.purchase = Some(
                    Purchase {
                        progress: Progress::Settling {
                            stage: Stage::SellerPayment,
                            seller,
                            royalty_receiver,
                            split,
                        },
                        ..purchase
                    },
                );
                PurchaseStep::Pay(Payment { to: seller, amount: split.seller_fee })
            },
            (Stage::SellerPayment, PurchaseOutcome::Paid(paid)) => {
                if !paid {
                    return self.roll_back(purchase, MarketplaceError::TransferToOwnerFailed);
                }
                let fee_recipient = match self.fees.config().fee_recipient {
                    Some(account) => account,
                    None => {
                        return self.roll_back(purchase, MarketplaceError::FeeRecipientNotSet);
                    },
                };
                self.purchase = Some(
                    Purchase {
                        progress: Progress::Settling {
                            stage: Stage::MarketplacePayment,
                            seller,
                            royalty_receiver,
                            split,
                        },
                        ..purchase
                    },
                );
                PurchaseStep::Pay(Payment { to: fee_recipient, amount: split.marketplace_fee })
            },
            (Stage::MarketplacePayment, PurchaseOutcome::Paid(paid)) => {
                if !paid {
                    return self.roll_back(purchase, MarketplaceError::TransferToMarketplaceFailed);
                }
                self.purchase = Some(
                    Purchase {
                        progress: Progress::Settling {
                            stage: Stage::AuthorPayment,
                            seller,
                            royalty_receiver,
                            split,
                        },
                        ..purchase
                    },
                );
                PurchaseStep::Pay(Payment { to: royalty_receiver, amount: split.author_royalty })
            },
            (Stage::AuthorPayment, PurchaseOutcome::Paid(paid)) => {
                if !paid {
                    return self.roll_back(purchase, MarketplaceError::TransferToAuthorFailed);
                }
                sink.emit_token_bought_event(
                    purchase.contract_address,
                    purchase.token_id,
                    purchase.value,
                );
                PurchaseStep::Done(Ok(()))
            },
            _ => {
                self.purchase = Some(purchase);
                PurchaseStep::Done(Err(MarketplaceError::UnexpectedOutcome))
            },
        }
    }

    fn get_nft_contract_hash(&self, contract_type: &NftContractType) -> (hash: Result<
        CodeHash,
        MarketplaceError,
    >) {
        match self.contract_hashes.get(contract_type) {
            Some(hash) => Ok(*hash),
            None => Err(MarketplaceError::NftContractHashNotSet),
        }
    }

    fn get_deposit_internal(&self, account_id: AccountId) -> (balance: Balance) {
        self.escrow.balance(account_id)
    }
}

impl MarketplaceSale for Marketplace {
    fn set_nft_contract_hash(
        &mut self,
        caller: AccountId,
        contract_type: NftContractType,
        contract_hash: CodeHash,
    ) -> (set: Result<(), MarketplaceError>) {
        self.only_owner(caller)?;
        self.contract_hashes.insert(contract_type, contract_hash);
        Ok(())
    }

    fn nft_contract_hash(&self, contract_type: NftContractType) -> (hash: Result<
        CodeHash,
        MarketplaceError,
    >) {
        self.get_nft_contract_hash(&contract_type)
    }

    fn list<S: MarketplaceSaleEvents>(
        &mut self,
        sink: &mut S,
        caller: AccountId,
        contract_address: AccountId,
        token_id: TokenId,
        price: Balance,
        token_owner: Option<AccountId>,
        approved: bool,
    ) -> (listed: Result<(), MarketplaceError>) {
        self.check_token_owner(caller, contract_address, token_owner)?;
        self.check_token_allowance(approved)?;
        self.listings.list(contract_address, token_id.clone(), caller, price);
        sink.emit_token_listed_event(contract_address, token_id, Some(price));
        Ok(())
    }

    fn unlist<S: MarketplaceSaleEvents>(
        &mut self,
        sink: &mut S,
        caller: AccountId,
        contract_address: AccountId,
        token_id: TokenId,
        token_owner: Option<AccountId>,
    ) -> (unlisted: Result<(), MarketplaceError>) {
        if !self.is_token_listed(contract_address, &token_id) {
            return Err(MarketplaceError::ItemNotListedForSale);
        }
        self.check_token_owner(caller, contract_address, token_owner)?;
        self.listings.unlist(contract_address, &token_id);
        sink.emit_token_listed_event(contract_address, token_id, None);
        Ok(())
    }

    fn buy(
        &mut self,
        caller: AccountId,
        contract_address: AccountId,
        token_id: TokenId,
        value: Balance,
    ) -> (step: PurchaseStep) {
        if self.purchase.is_some() {
            return PurchaseStep::Done(Err(MarketplaceError::ReentrantCall));
        }
        let item = match self.listings.get(contract_address, &token_id) {
            Some(item) => item,
            None => {
                return PurchaseStep::Done(Err(MarketplaceError::ItemNotListedForSale));
            },
        };
        let step = PurchaseStep::ResolveOwner { contract_address, token_id: token_id.clone() };
        self.purchase = Some(
            Purchase {
                buyer: caller,
                contract_address,
                token_id,
                value,
                item,
                progress: Progress::ResolvingOwner,
            },
        );
        step
    }

    fn resume_buy<S: MarketplaceSaleEvents>(
        &mut self,
        sink: &mut S,
        outcome: PurchaseOutcome,
    ) -> (step: PurchaseStep) {
        match outcome {
            PurchaseOutcome::OwnerResolved(token_owner) => self.settle_purchase(token_owner),
            _ => self.transfer_token(sink, outcome),
        }
    }

    fn register<S: MarketplaceSaleEvents>(
        &mut self,
        sink: &mut S,
        caller: AccountId,
        contract_address: AccountId,
        royalty_receiver: AccountId,
        royalty: u16,
        marketplace_ipfs: Vec<u8>,
        collection_owner: Option<AccountId>,
    ) -> (registered: Result<(), MarketplaceError>) {
        let max_fee = self.fees.config().max_fee;
        self.check_fee(royalty, max_fee)?;
        if self.collections.is_registered(contract_address) {
            return Err(MarketplaceError::ContractAlreadyRegistered);
        }
        if self.owner != caller {
            let owns_collection = match collection_owner {
                Some(owner) => owner == caller,
                None => false,
            };
            if !owns_collection {
                return Err(MarketplaceError::NotOwner);
            }
        }
        self.collections.register(
            contract_address,
            RegisteredCollection { royalty_receiver, royalty, marketplace_ipfs },
        )?;
        sink.emit_collection_registered_event(contract_address);
        Ok(())
    }

    fn get_registered_collection(&self, contract_address: AccountId) -> (collection: Option<
        RegisteredCollection,
    >) {
        self.collections.get(contract_address)
    }

    fn set_marketplace_fee(&mut self, caller: AccountId, fee: u16) -> (set: Result<
        (),
        MarketplaceError,
    >) {
        self.only_owner(caller)?;
        self.fees.set_fee(fee)
    }

    fn get_marketplace_fee(&self) -> (fee: u16) {
        self.fees.config().fee
    }

    fn get_max_fee(&self) -> (max_fee: u16) {
        self.fees.config().max_fee
    }

    fn get_price(
        &self,
        contract_address: AccountId,
        token_id: TokenId,
    ) -> (price: Option<Balance>) {
        self.listings.get_price(contract_address, &token_id)
    }

    fn set_contract_metadata(&mut self, contract_address: AccountId, ipfs: Vec<u8>) -> (set: Result<
        (),
        MarketplaceError,
    >) {
        self.collections.set_metadata(contract_address, ipfs)
    }

    fn get_fee_recipient(&self) -> (recipient: Result<AccountId, MarketplaceError>) {
        match self.fees.config().fee_recipient {
            Some(account) => Ok(account),
            None => Err(MarketplaceError::FeeRecipientNotSet),
        }
    }

    fn set_fee_recipient(&mut self, caller: AccountId, fee_recipient: AccountId) -> (set: Result<
        (),
        MarketplaceError,
    >) {
        self.only_owner(caller)?;
        self.fees.set_recipient(fee_recipient);
        Ok(())
    }

    fn deposit(&mut self, caller: AccountId, value: Balance) -> (deposited: Result<
        (),
        MarketplaceError,
    >) {
        self.escrow.credit(caller, value)
    }

    fn withdraw(&mut self, caller: AccountId, amount: Balance) -> (owed: Result<
        Payment,
        MarketplaceError,
    >) {
        self.escrow.debit(caller, amount)?;
        Ok(Payment { to: caller, amount })
    }

    fn settle_withdrawal(&mut self, payment: Payment, paid: bool) -> (settled: Result<
        (),
        MarketplaceError,
    >) {
        if paid {
            return Ok(());
        }
        self.escrow.credit(payment.to, payment.amount)?;
        Err(MarketplaceError::TransferToOwnerFailed)
    }

    fn get_deposit(&self, account_id: AccountId) -> (balance: Balance) {
        self.get_deposit_internal(account_id)
    }

    fn cancel_offer(&mut self, caller: AccountId, offer_id: u128) -> (cancelled: Result<
        (),
        MarketplaceError,
    >) {
        self.offers.cancel(caller, offer_id)
    }

    fn get_offer_active(&self, caller: AccountId, offer_id: u128) -> (active: bool) {
        match self.offers.terms(offer_id) {
            Some((_, quantity, price_per_item)) => {
                let deposit = self.get_deposit_internal(caller);
                covers(deposit, quantity, price_per_item)
            },
            None => false,
        }
    }

    fn accept_offer(&mut self, offer_id: u128, token_id: TokenId) -> (accepted: Result<
        (),
        MarketplaceError,
    >) {
        match self.offers.terms(offer_id) {
            Some(_) => Ok(()),
            None => Err(MarketplaceError::OfferNotFound),
        }
    }

    fn fulfill_offer(&mut self, offer_id: u128, token_id: TokenId) -> (fulfilled: Result<
        (),
        MarketplaceError,
    >) {
        Ok(())
    }

    fn make_offer<S: MarketplaceSaleEvents>(
        &mut self,
        sink: &mut S,
        caller: AccountId,
        contract_address: AccountId,
        token_id: Option<TokenId>,
        quantity: u64,
        price_per_item: Balance,
        extra: Vec<u8>,
    ) -> (offer_id: Result<u128, MarketplaceError>) {
        let deposit = self.get_deposit_internal(caller);
        if !covers(deposit, quantity, price_per_item) {
            return Err(MarketplaceError::BalanceInsufficient);
        }
        let offer = OfferItem {
            bidder_id: caller,
            contract_address,
            token_id: copy_optional_token(&token_id),
            quantity,
            price_per_item,
            extra: copy_bytes(extra.as_slice()),
        };
        let current_offer_id = self.offers.add(offer)?;
        sink.emit_make_offer_event(
            caller,
            contract_address,
            token_id,
            quantity,
            price_per_item,
            extra,
            current_offer_id,
        );
        Ok(current_offer_id)
    }
}

} // verus!
