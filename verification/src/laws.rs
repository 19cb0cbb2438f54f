//! What holds of the marketplace whatever is asked of it.
//!
//! Each law is stated over [`MarketplaceState`] and the functions that the
//! operations' contracts are written in, and proved from their definitions.
use crate::fees::{
    lemma_rates_within_whole_split, lemma_split_conserves_value, split_of, splittable,
};
use crate::model::{MarketplaceState, Operation, Outside};
use crate::purchase::{Payment, PurchaseOutcome, PurchaseStepView};
use crate::records::OfferItemView;
use crate::types::{AccountId, Balance, MarketplaceError, TokenIdView};
use vstd::prelude::*;

verus! {

/// A marketplace that was just set up is in a valid state.
pub proof fn lemma_initial_state_is_valid(owner: AccountId, fee: u16, max_fee: u16)
    requires
        fee <= max_fee,
    ensures
        MarketplaceState::initial(owner, fee, max_fee).valid(),
{
}

/// No call takes the marketplace out of its valid states.
pub proof fn lemma_valid_is_kept(s: MarketplaceState, operation: Operation)
    requires
        s.valid(),
    ensures
        s.after(operation).valid(),
{
    match operation {
        Operation::ResumeBuy { outcome } => {
            lemma_resume_buy_keeps_valid(s, outcome);
        },
        _ => {},
    }
}

/// Going on with a purchase keeps the state valid.
proof fn lemma_resume_buy_keeps_valid(s: MarketplaceState, outcome: PurchaseOutcome)
    requires
        s.valid(),
    ensures
        s.resume_buy(outcome).0.valid(),
{
    match s.purchase {
        Some(purchase) => {
            match s.collections.get(purchase.contract_address) {
                Some(collection) => {
                    let royalty = collection.royalty;
                    if splittable(purchase.value as int, s.fees.fee as int, royalty as int) {
                        lemma_split_conserves_value(purchase.value, s.fees.fee, royalty);
                    }
                },
                None => {},
            }
        },
        None => {},
    }
}

/// No call takes back a number that was given to an offer: the number
/// given out last never decreases.
pub proof fn lemma_offer_numbers_only_grow(s: MarketplaceState, operation: Operation)
    ensures
        s.after(operation).offers.last_offer_id >= s.offers.last_offer_id,
{
}

/// A purchase ends after the five outside steps at the latest, with the
/// first error that applies, or well; a purchase
/// that fails leaves the state as it was; one that ends well takes the
/// listing out of the book and changes nothing else. However it ends, no
/// purchase is in flight after it, unless one was before.
pub proof fn lemma_purchase_ends_as_told(
    s: MarketplaceState,
    caller: AccountId,
    contract_address: AccountId,
    token_id: TokenIdView,
    value: Balance,
    outside: Outside,
)
    ensures
        s.purchase(caller, contract_address, token_id, value, outside).result()
            == s.purchase_result(caller, contract_address, token_id, value, outside),
        s.purchase(caller, contract_address, token_id, value, outside).result().is_err()
            ==> s.purchase(caller, contract_address, token_id, value, outside).state == s,
        s.purchase(caller, contract_address, token_id, value, outside).result().is_ok()
            ==> s.purchase(caller, contract_address, token_id, value, outside).state == (
        MarketplaceState { items: s.items.remove((contract_address, token_id)), ..s }),
        s.purchase.is_none() ==> s.purchase(
            caller,
            contract_address,
            token_id,
            value,
            outside,
        ).state.purchase.is_none(),
        s.purchase(caller, contract_address, token_id, value, outside).ended(),
{
    let key = (contract_address, token_id);
    let run = s.purchase(caller, contract_address, token_id, value, outside);
    if s.purchase.is_none() && s.items.contains_key(key) {
        let item = s.items[key];
        assert(s.items.remove(key).insert(key, item) =~= s.items);
        assert(s.items.insert(key, item) =~= s.items);
    }
}

/// A purchase that ends well asks for these steps and no others: the owner
/// of the asset, its transfer from that owner to the buyer, and the payment
/// of the seller, the marketplace and the author, in that order. What is
/// paid out is the split of the whole payment, whatever the price was, and
/// the three payments add up to it.
pub proof fn lemma_purchase_pays_out(
    s: MarketplaceState,
    caller: AccountId,
    contract_address: AccountId,
    token_id: TokenIdView,
    value: Balance,
    outside: Outside,
)
    requires
        s.purchase_result(caller, contract_address, token_id, value, outside).is_ok(),
    ensures
        ({
            let seller = outside.token_owner.unwrap();
            let collection = s.collections[contract_address];
            let split = split_of(value, s.fees.fee, collection.royalty);
            &&& s.purchase(caller, contract_address, token_id, value, outside).steps == seq![
                PurchaseStepView::ResolveOwner { contract_address, token_id },
                PurchaseStepView::TransferToken {
                    contract_address,
                    token_id,
                    from: seller,
                    to: caller,
                },
                PurchaseStepView::Pay(Payment { to: seller, amount: split.seller_fee }),
                PurchaseStepView::Pay(
                    Payment { to: s.fees.fee_recipient.unwrap(), amount: split.marketplace_fee },
                ),
                PurchaseStepView::Pay(
                    Payment { to: collection.royalty_receiver, amount: split.author_royalty },
                ),
                PurchaseStepView::Done(Ok(())),
            ]
            &&& split.seller_fee + split.marketplace_fee + split.author_royalty == value
        }),
{
    let key = (contract_address, token_id);
    let collection = s.collections[contract_address];
    lemma_split_conserves_value(value, s.fees.fee, collection.royalty);
    let run = s.purchase(caller, contract_address, token_id, value, outside);
    let seller = outside.token_owner.unwrap();
    let split = split_of(value, s.fees.fee, collection.royalty);
    assert(run.steps =~= seq![
        PurchaseStepView::ResolveOwner { contract_address, token_id },
        PurchaseStepView::TransferToken { contract_address, token_id, from: seller, to: caller },
        PurchaseStepView::Pay(Payment { to: seller, amount: split.seller_fee }),
        PurchaseStepView::Pay(
            Payment { to: s.fees.fee_recipient.unwrap(), amount: split.marketplace_fee },
        ),
        PurchaseStepView::Pay(
            Payment { to: collection.royalty_receiver, amount: split.author_royalty },
        ),
        PurchaseStepView::Done(Ok(())),
    ]);
}

/// Buying an asset that is for sale, of which the token registry knows the
/// owner, while no other purchase is in flight: the purchase fails with
/// `AlreadyOwner` where the buyer owns the asset, else with `BadBuyValue`
/// where the payment is less than the price. Else it ends well, provided
/// that fee and royalty can be paid out of the payment, that the
/// marketplace has a fee recipient and that every outside step succeeds.
pub proof fn lemma_buy(
    s: MarketplaceState,
    caller: AccountId,
    contract_address: AccountId,
    token_id: TokenIdView,
    value: Balance,
    outside: Outside,
)
    requires
        s.valid(),
        s.purchase.is_none(),
        s.items.contains_key((contract_address, token_id)),
        outside.token_owner.is_some(),
    ensures
        outside.token_owner == Some(caller) ==> s.purchase(
            caller,
            contract_address,
            token_id,
            value,
            outside,
        ).result() == Err::<(), MarketplaceError>(MarketplaceError::AlreadyOwner),
        outside.token_owner != Some(caller) && value < s.items[(contract_address, token_id)].price
            ==> s.purchase(caller, contract_address, token_id, value, outside).result() == Err::<
            (),
            MarketplaceError,
        >(MarketplaceError::BadBuyValue),
        outside.token_owner != Some(caller) && value >= s.items[(contract_address, token_id)].price
            && splittable(
            value as int,
            s.fees.fee as int,
            s.collections[contract_address].royalty as int,
        ) && s.fees.fee_recipient.is_some() && outside.transferred && outside.seller_paid
            && outside.marketplace_paid && outside.author_paid ==> s.purchase(
            caller,
            contract_address,
            token_id,
            value,
            outside,
        ).result().is_ok(),
{
    lemma_purchase_ends_as_told(s, caller, contract_address, token_id, value, outside);
}

/// Rates that together take at most one whole never stand in the way of a
/// purchase: fee and royalty can be paid out of any payment.
pub proof fn lemma_modest_rates_split(
    s: MarketplaceState,
    contract_address: AccountId,
    value: Balance,
)
    requires
        s.collections.contains_key(contract_address),
        s.fees.fee + s.collections[contract_address].royalty <= 10_000,
    ensures
        splittable(value as int, s.fees.fee as int, s.collections[contract_address].royalty as int),
{
    lemma_rates_within_whole_split(
        value,
        s.fees.fee,
        s.collections[contract_address].royalty,
    );
}

/// While a purchase is in flight no other can begin: the request fails with
/// `ReentrantCall` and changes nothing.
pub proof fn lemma_no_purchase_within_a_purchase(
    s: MarketplaceState,
    caller: AccountId,
    contract_address: AccountId,
    token_id: TokenIdView,
    value: Balance,
)
    requires
        s.purchase.is_some(),
    ensures
        s.buy(caller, contract_address, token_id, value) == (
            s,
            PurchaseStepView::Done(Err(MarketplaceError::ReentrantCall)),
        ),
{
}

/// A call that fails leaves the state as it was. The one exception is the
/// closing of a withdrawal whose payment was not made: it fails, and puts
/// back what the withdrawal took.
pub proof fn lemma_failure_changes_nothing(s: MarketplaceState, operation: Operation)
    requires
        s.error_of(operation).is_some(),
        !(operation is SettleWithdrawal),
        !(operation is ResumeBuy),
    ensures
        s.after(operation) == s,
{
}

/// Registering a collection that is registered fails with
/// `ContractAlreadyRegistered` and changes nothing, whoever calls and
/// whatever the collection's contract says of its owner, provided that the
/// royalty is under the ceiling.
pub proof fn lemma_register_twice_fails(
    s: MarketplaceState,
    caller: AccountId,
    contract_address: AccountId,
    royalty_receiver: AccountId,
    royalty: u16,
    marketplace_ipfs: Seq<u8>,
    collection_owner: Option<AccountId>,
)
    requires
        s.collections.contains_key(contract_address),
        royalty <= s.fees.max_fee,
    ensures
        s.register(
            caller,
            contract_address,
            royalty_receiver,
            royalty,
            marketplace_ipfs,
            collection_owner,
        ) == (s, Err::<(), MarketplaceError>(MarketplaceError::ContractAlreadyRegistered)),
{
}

/// Registering a collection with a royalty above the ceiling fails with
/// `FeeTooHigh` and changes nothing, whether the collection is registered
/// or not.
pub proof fn lemma_register_above_ceiling_fails(
    s: MarketplaceState,
    caller: AccountId,
    contract_address: AccountId,
    royalty_receiver: AccountId,
    royalty: u16,
    marketplace_ipfs: Seq<u8>,
    collection_owner: Option<AccountId>,
)
    requires
        royalty > s.fees.max_fee,
    ensures
        s.register(
            caller,
            contract_address,
            royalty_receiver,
            royalty,
            marketplace_ipfs,
            collection_owner,
        ) == (s, Err::<(), MarketplaceError>(MarketplaceError::FeeTooHigh)),
{
}

/// A collection that was registered cannot be registered again by any
/// later call of `register`, whatever else was called in between.
pub proof fn lemma_register_once(
    s: MarketplaceState,
    between: Operation,
    caller: AccountId,
    contract_address: AccountId,
    royalty_receiver: AccountId,
    royalty: u16,
    marketplace_ipfs: Seq<u8>,
    collection_owner: Option<AccountId>,
)
    requires
        s.collections.contains_key(contract_address),
    ensures
        s.after(between).register(
            caller,
            contract_address,
            royalty_receiver,
            royalty,
            marketplace_ipfs,
            collection_owner,
        ).1.is_err(),
        s.after(between).register(
            caller,
            contract_address,
            royalty_receiver,
            royalty,
            marketplace_ipfs,
            collection_owner,
        ).0 == s.after(between),
{
    lemma_registration_stays(s, between, contract_address);
}

/// Once a collection is registered it stays registered, with the royalty
/// terms it was registered with, whatever is called.
pub proof fn lemma_registration_stays(
    s: MarketplaceState,
    operation: Operation,
    contract_address: AccountId,
)
    requires
        s.collections.contains_key(contract_address),
    ensures
        s.after(operation).collections.contains_key(contract_address),
        s.after(operation).collections[contract_address].royalty
            == s.collections[contract_address].royalty,
        s.after(operation).collections[contract_address].royalty_receiver
            == s.collections[contract_address].royalty_receiver,
{
}

/// A withdrawal fails with `BalanceInsufficient` exactly when the amount is
/// more than the balance, and with no other error. Where it succeeds the
/// balance of the caller is less by the amount, that amount is owed to the
/// caller, and no other balance changes.
pub proof fn lemma_withdraw(s: MarketplaceState, caller: AccountId, amount: Balance)
    ensures
        s.withdraw(caller, amount).1 == Err::<Payment, MarketplaceError>(
            MarketplaceError::BalanceInsufficient,
        ) <==> amount > s.get_deposit(caller),
        s.withdraw(caller, amount).1.is_err() <==> amount > s.get_deposit(caller),
        s.withdraw(caller, amount).1.is_err() ==> s.withdraw(caller, amount).0 == s,
        s.withdraw(caller, amount).1.is_ok() ==> {
            &&& s.withdraw(caller, amount).1 == Ok::<Payment, MarketplaceError>(
                Payment { to: caller, amount },
            )
            &&& s.withdraw(caller, amount).0.get_deposit(caller) == s.get_deposit(caller) - amount
            &&& forall|other: AccountId|
                other != caller ==> s.withdraw(caller, amount).0.get_deposit(other)
                    == s.get_deposit(other)
        },
{
}

/// A withdrawal whose payment is not made is undone: the state is as it was
/// before the withdrawal, and the error is `TransferToOwnerFailed`. One
/// whose payment is made stands.
pub proof fn lemma_unpaid_withdrawal_is_undone(
    s: MarketplaceState,
    caller: AccountId,
    amount: Balance,
    paid: bool,
)
    requires
        s.valid(),
        amount <= s.get_deposit(caller),
    ensures
        ({
            let (debited, owed) = s.withdraw(caller, amount);
            let (settled, result) = debited.settle_withdrawal(owed.unwrap(), paid);
            &&& paid ==> settled == debited && result.is_ok()
            &&& !paid ==> settled == s && result == Err::<(), MarketplaceError>(
                MarketplaceError::TransferToOwnerFailed,
            )
        }),
{
    let (debited, owed) = s.withdraw(caller, amount);
    let (settled, result) = debited.settle_withdrawal(owed.unwrap(), paid);
    if !paid {
        assert(settled.deposits =~= s.deposits);
    }
}

/// A deposit adds the payment to the balance of the caller and changes no
/// other balance. It fails exactly when the sum is no balance.
pub proof fn lemma_deposit(s: MarketplaceState, caller: AccountId, value: Balance)
    ensures
        s.deposit(caller, value).1.is_err() <==> s.get_deposit(caller) + value > Balance::MAX,
        s.deposit(caller, value).1.is_ok() ==> {
            &&& s.deposit(caller, value).0.get_deposit(caller) == s.get_deposit(caller) + value
            &&& forall|other: AccountId|
                other != caller ==> s.deposit(caller, value).0.get_deposit(other) == s.get_deposit(
                    other,
                )
        },
{
}

/// An offer fails with `BalanceInsufficient` exactly when its quantity
/// times its price is more than the escrow balance of the bidder. Where it
/// succeeds its number is greater than every number given out before, no
/// offer stood under that number, and the offer now stands under it.
pub proof fn lemma_make_offer(s: MarketplaceState, offer: OfferItemView)
    requires
        s.valid(),
    ensures
        s.make_offer(offer).1 == Err::<u128, MarketplaceError>(
            MarketplaceError::BalanceInsufficient,
        ) <==> offer.quantity * offer.price_per_item > s.get_deposit(offer.bidder_id),
        match s.make_offer(offer).1 {
            Ok(offer_id) => {
                &&& forall|earlier: u128| s.offers.issued(earlier) ==> earlier < offer_id
                &&& !s.offers.items.contains_key(offer_id)
                &&& s.make_offer(offer).0.offers.issued(offer_id)
                &&& s.make_offer(offer).0.offers.get(offer_id) == Some(offer)
                &&& s.make_offer(offer).0.deposits == s.deposits
            },
            Err(_) => s.make_offer(offer).0 == s,
        },
{
}

/// A number that was given out stays given out, whatever is called: an
/// offer made later gets a greater one.
pub proof fn lemma_offer_numbers_are_not_reused(
    s: MarketplaceState,
    operation: Operation,
    earlier: u128,
    offer: OfferItemView,
)
    requires
        s.offers.issued(earlier),
    ensures
        s.after(operation).offers.issued(earlier),
        match s.after(operation).make_offer(offer).1 {
            Ok(offer_id) => earlier < offer_id,
            Err(_) => true,
        },
{
    lemma_offer_numbers_only_grow(s, operation);
}

/// Cancelling an offer that stands: whoever is not its bidder fails with
/// `NotOwner` and changes nothing; its bidder removes it, and no other
/// offer with it.
pub proof fn lemma_cancel_offer(s: MarketplaceState, caller: AccountId, offer_id: u128)
    requires
        s.offers.items.contains_key(offer_id),
    ensures
        caller != s.offers.items[offer_id].bidder_id ==> s.cancel_offer(caller, offer_id) == (
            s,
            Err::<(), MarketplaceError>(MarketplaceError::NotOwner),
        ),
        caller == s.offers.items[offer_id].bidder_id ==> {
            &&& s.cancel_offer(caller, offer_id).1.is_ok()
            &&& !s.cancel_offer(caller, offer_id).0.offers.items.contains_key(offer_id)
            &&& forall|other: u128|
                other != offer_id ==> s.cancel_offer(caller, offer_id).0.offers.get(other)
                    == s.offers.get(other)
        },
{
}

/// Cancelling an offer that does not stand fails with `OfferNotFound`.
pub proof fn lemma_cancel_unknown_offer(s: MarketplaceState, caller: AccountId, offer_id: u128)
    requires
        !s.offers.items.contains_key(offer_id),
    ensures
        s.cancel_offer(caller, offer_id) == (
            s,
            Err::<(), MarketplaceError>(MarketplaceError::OfferNotFound),
        ),
{
}

/// The owner of the marketplace and the ceiling of its rates never change.
pub proof fn lemma_owner_and_ceiling_stay(s: MarketplaceState, operation: Operation)
    ensures
        s.after(operation).owner == s.owner,
        s.after(operation).fees.max_fee == s.fees.max_fee,
{
}

/// An offer that stands keeps standing, as it was made, until its bidder
/// cancels it: no other call and no other caller takes it away.
pub proof fn lemma_offer_stands_until_cancelled(
    s: MarketplaceState,
    operation: Operation,
    offer_id: u128,
)
    requires
        s.valid(),
        s.offers.items.contains_key(offer_id),
        !(operation matches Operation::CancelOffer { caller, offer_id: cancelled }
            && cancelled == offer_id && caller == s.offers.items[offer_id].bidder_id),
    ensures
        s.after(operation).offers.get(offer_id) == s.offers.get(offer_id),
{
}

/// The escrow balance of an account changes only by a deposit or a
/// withdrawal of that account.
pub proof fn lemma_balance_is_its_owners(
    s: MarketplaceState,
    operation: Operation,
    account: AccountId,
)
    requires
        !(operation matches Operation::Deposit { caller, .. } && caller == account),
        !(operation matches Operation::Withdraw { caller, .. } && caller == account),
        !(operation matches Operation::SettleWithdrawal { payment, .. } && payment.to == account),
    ensures
        s.after(operation).get_deposit(account) == s.get_deposit(account),
{
}

/// A listing leaves the book only where its asset is taken off sale or
/// bought, and its price and seller change only where the asset is listed
/// again or a failed purchase puts the listing back.
pub proof fn lemma_listing_stays(
    s: MarketplaceState,
    operation: Operation,
    contract_address: AccountId,
    token_id: TokenIdView,
)
    requires
        s.items.contains_key((contract_address, token_id)),
        !(operation is List),
        !(operation is Unlist),
        !(operation is ResumeBuy),
    ensures
        s.after(operation).items.contains_key((contract_address, token_id)),
        s.after(operation).items[(contract_address, token_id)] == s.items[(
            contract_address,
            token_id,
        )],
{
}

/// An answer of the token registry that listing does not ask for does not
/// matter: whatever it is, the listing comes out the same.
pub proof fn lemma_list_asks_what_matters(
    s: MarketplaceState,
    caller: AccountId,
    contract_address: AccountId,
    token_id: TokenIdView,
    price: Balance,
    token_owner: Option<AccountId>,
    approved: bool,
    other_owner: Option<AccountId>,
    other_approved: bool,
)
    ensures
        !s.list_asks_owner(contract_address) ==> s.list(
            caller,
            contract_address,
            token_id,
            price,
            token_owner,
            approved,
        ) == s.list(caller, contract_address, token_id, price, other_owner, other_approved),
        !s.list_asks_allowance(caller, contract_address, token_owner) ==> s.list(
            caller,
            contract_address,
            token_id,
            price,
            token_owner,
            approved,
        ) == s.list(caller, contract_address, token_id, price, token_owner, other_approved),
{
}

/// The owner that the token registry names does not matter to taking an
/// asset off sale where that does not ask for it.
pub proof fn lemma_unlist_asks_what_matters(
    s: MarketplaceState,
    caller: AccountId,
    contract_address: AccountId,
    token_id: TokenIdView,
    token_owner: Option<AccountId>,
    other_owner: Option<AccountId>,
)
    requires
        !s.unlist_asks_owner(contract_address, token_id),
    ensures
        s.unlist(caller, contract_address, token_id, token_owner) == s.unlist(
            caller,
            contract_address,
            token_id,
            other_owner,
        ),
{
}

/// The owner that the collection's contract names does not matter to
/// registering the collection where that does not ask for it.
pub proof fn lemma_register_asks_what_matters(
    s: MarketplaceState,
    caller: AccountId,
    contract_address: AccountId,
    royalty_receiver: AccountId,
    royalty: u16,
    marketplace_ipfs: Seq<u8>,
    collection_owner: Option<AccountId>,
    other_owner: Option<AccountId>,
)
    requires
        !s.register_asks_owner(caller, contract_address, royalty),
    ensures
        s.register(
            caller,
            contract_address,
            royalty_receiver,
            royalty,
            marketplace_ipfs,
            collection_owner,
        ) == s.register(
            caller,
            contract_address,
            royalty_receiver,
            royalty,
            marketplace_ipfs,
            other_owner,
        ),
{
}

/// On a marketplace that was just set up every escrow balance is zero.
pub proof fn lemma_balances_start_at_zero(
    owner: AccountId,
    fee: u16,
    max_fee: u16,
    account: AccountId,
)
    ensures
        MarketplaceState::initial(owner, fee, max_fee).get_deposit(account) == 0,
{
}

} // verus!
