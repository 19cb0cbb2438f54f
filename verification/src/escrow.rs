//! The escrow ledger: what each account has deposited with the
//! marketplace.
use crate::table::{merged, Table};
use crate::types::{AccountId, Balance, MarketplaceError};
use vstd::prelude::*;

verus! {

/// The escrow balance of every account. An account that never deposited
/// has the balance zero.
pub type Deposits = Map<AccountId, Balance>;

/// The deposits in which every balance is zero.
pub open spec fn no_deposits() -> Deposits {
    Map::total(|account: AccountId| 0u128)
}

/// The escrow balance of `account` among `deposits`.
pub open spec fn balance_of(deposits: Deposits, account: AccountId) -> Balance {
    if deposits.contains_key(account) {
        deposits[account]
    } else {
        0
    }
}

/// The balances that `entries` gives, and zero for every other account.
pub open spec fn filled(entries: Map<AccountId, Balance>) -> Deposits {
    Map::total(
        |account: AccountId|
            if entries.contains_key(account) {
                entries[account]
            } else {
                0u128
            },
    )
}

/// The deposits of every account.
pub struct EscrowLedger {
    deposits: Table<AccountId, Balance>,
}

impl View for EscrowLedger {
    type V = Deposits;

    closed spec fn view(&self) -> Deposits {
        filled(self.deposits@)
    }
}

impl EscrowLedger {
    /// A ledger without deposits.
    pub fn new() -> (ledger: Self)
        ensures
            ledger@ == no_deposits(),
    {
        let ledger = EscrowLedger { deposits: Table::new() };
        assert(ledger@ =~= no_deposits());
        ledger
    }

    /// The ledger that holds the balances `entries`. Where an account stands
    /// twice, its first entry is the one that counts.
    pub fn from_entries(entries: Vec<(AccountId, Balance)>) -> (ledger: Self)
        ensures
            ledger@ == filled(merged(entries@)),
    {
        EscrowLedger { deposits: Table::from_entries(entries) }
    }

    /// The balances of the ledger, each account once. An account that is
    /// not among them has the balance zero.
    pub fn into_entries(self) -> (entries: Vec<(AccountId, Balance)>)
        ensures
            filled(merged(entries@)) == self@,
    {
        self.deposits.into_entries()
    }

    /// Every account has a balance.
    pub proof fn lemma_every_account_has_a_balance(self)
        ensures
            forall|account: AccountId| #[trigger] self@.contains_key(account),
    {
    }

    /// The escrow balance of `account`.
    pub fn balance(&self, account: AccountId) -> (balance: Balance)
        ensures
            balance == balance_of(self@, account),
    {
        match self.deposits.get(&account) {
            Some(balance) => *balance,
            None => 0,
        }
    }

    /// Adds `value` to the balance of `account`. Fails with
    /// `ArithmeticOverflow`, and changes nothing, exactly when the sum is no
    /// balance.
    pub fn credit(
        &mut self,
        account: AccountId,
        value: Balance,
    ) -> (credited: Result<(), MarketplaceError>)
        ensures
            balance_of(old(self)@, account) + value <= Balance::MAX ==> {
                &&& credited == Ok::<(), MarketplaceError>(())
                &&& final(self)@ == old(self)@.insert(
                    account,
                    (balance_of(old(self)@, account) + value) as Balance,
                )
            },
            balance_of(old(self)@, account) + value > Balance::MAX ==> {
                &&& credited == Err::<(), MarketplaceError>(MarketplaceError::ArithmeticOverflow)
                &&& final(self)@ == old(self)@
            },
    {
        match self.balance(account).checked_add(value) {
            Some(sum) => {
                self.deposits.insert(account, sum);
                assert(self@ =~= old(self)@.insert(account, sum));
                Ok(())
            },
            None => Err(MarketplaceError::ArithmeticOverflow),
        }
    }

    /// Takes `amount` off the balance of `account`. Fails with
    /// `BalanceInsufficient`, and changes nothing, exactly when `amount` is
    /// more than the balance.
    pub fn debit(
        &mut self,
        account: AccountId,
        amount: Balance,
    ) -> (debited: Result<(), MarketplaceError>)
        ensures
            amount <= balance_of(old(self)@, account) ==> {
                &&& debited == Ok::<(), MarketplaceError>(())
                &&& final(self)@ == old(self)@.insert(
                    account,
                    (balance_of(old(self)@, account) - amount) as Balance,
                )
            },
            amount > balance_of(old(self)@, account) ==> {
                &&& debited == Err::<(), MarketplaceError>(MarketplaceError::BalanceInsufficient)
                &&& final(self)@ == old(self)@
            },
    {
        let balance = self.balance(account);
        if balance < amount {
            Err(MarketplaceError::BalanceInsufficient)
        } else {
            self.deposits.insert(account, balance - amount);
            assert(self@ =~= old(self)@.insert(account, (balance - amount) as Balance));
            Ok(())
        }
    }
}

} // verus!
