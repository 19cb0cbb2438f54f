//! The fee engine: the marketplace-wide fee rate, its ceiling, and the
//! split of a payment between seller, marketplace and royalty receiver.
//!
//! Rates are basis points, parts of ten thousand.
use crate::types::{AccountId, Balance, MarketplaceError};
use vstd::prelude::*;

verus! {

/// One whole, in basis points.
pub const BASIS_POINTS: u128 = 10_000;

/// The share of `value` that a rate of `bps` basis points takes, rounded
/// down.
pub open spec fn share(value: int, bps: int) -> int {
    value * bps / 10_000
}

/// What is left of `value` for the seller once the marketplace's fee and the
/// royalty are taken. Whatever the rounding of the two shares leaves over
/// stays with the seller.
pub open spec fn seller_share(value: int, fee_bps: int, royalty_bps: int) -> int {
    value - share(value, fee_bps) - share(value, royalty_bps)
}

/// Tells whether the two shares can be paid out of `value`.
pub open spec fn splittable(value: int, fee_bps: int, royalty_bps: int) -> bool {
    share(value, fee_bps) + share(value, royalty_bps) <= value
}

/// A payment divided in three parts.
#[derive(Clone, Copy, Debug, PartialEq, Eq)]
pub struct Split {
    /// The marketplace's fee.
    pub marketplace_fee: Balance,
    /// The royalty of the collection's author.
    pub author_royalty: Balance,
    /// What the seller receives.
    pub seller_fee: Balance,
}

/// The split of `value` at the rates `fee_bps` and `royalty_bps`.
pub open spec fn split_of(value: Balance, fee_bps: u16, royalty_bps: u16) -> Split {
    Split {
        marketplace_fee: share(value as int, fee_bps as int) as Balance,
        author_royalty: share(value as int, royalty_bps as int) as Balance,
        seller_fee: seller_share(value as int, fee_bps as int, royalty_bps as int) as Balance,
    }
}

/// The three parts of a split are never negative and add up to the payment,
/// whenever the two shares can be paid out of it.
pub proof fn lemma_split_conserves_value(value: Balance, fee_bps: u16, royalty_bps: u16)
    requires
        splittable(value as int, fee_bps as int, royalty_bps as int),
    ensures
        0 <= share(value as int, fee_bps as int),
        0 <= share(value as int, royalty_bps as int),
        0 <= seller_share(value as int, fee_bps as int, royalty_bps as int),
        share(value as int, fee_bps as int) + share(value as int, royalty_bps as int)
            + seller_share(value as int, fee_bps as int, royalty_bps as int) == value,
        split_of(value, fee_bps, royalty_bps).marketplace_fee + split_of(
            value,
            fee_bps,
            royalty_bps,
        ).author_royalty + split_of(value, fee_bps, royalty_bps).seller_fee == value,
{
    lemma_share_bounds(value as int, fee_bps as int);
    lemma_share_bounds(value as int, royalty_bps as int);
}

/// A share is not negative, and a rate of at most one whole takes at most
/// the value.
pub proof fn lemma_share_bounds(value: int, bps: int)
    requires
        0 <= value,
        0 <= bps,
    ensures
        0 <= share(value, bps),
        bps <= 10_000 ==> share(value, bps) <= value,
{
    assert(0 <= value * bps) by (nonlinear_arith)
        requires
            0 <= value,
            0 <= bps,
    ;
    if bps <= 10_000 {
        assert(value * bps <= value * 10_000) by (nonlinear_arith)
            requires
                0 <= value,
                0 <= bps <= 10_000,
        ;
    }
}

/// Two rates that together take at most one whole can always be paid out
/// of the value.
pub proof fn lemma_rates_within_whole_split(value: Balance, fee_bps: u16, royalty_bps: u16)
    requires
        fee_bps + royalty_bps <= 10_000,
    ensures
        splittable(value as int, fee_bps as int, royalty_bps as int),
{
    let v = value as int;
    let f = fee_bps as int;
    let r = royalty_bps as int;
    assert(v * f + v * r == v * (f + r)) by (nonlinear_arith);
    assert(v * (f + r) <= v * 10_000) by (nonlinear_arith)
        requires
            0 <= v,
            f + r <= 10_000,
    ;
    assert(0 <= v * f && 0 <= v * r) by (nonlinear_arith)
        requires
            0 <= v,
            0 <= f,
            0 <= r,
    ;
}

/// What checking the rate `fee` against the ceiling `max_fee` gives.
pub open spec fn fee_check(fee: u16, max_fee: u16) -> Result<(), MarketplaceError> {
    if fee <= max_fee {
        Ok(())
    } else {
        Err(MarketplaceError::FeeTooHigh)
    }
}

/// Fails with `FeeTooHigh` exactly when `fee` is above `max_fee`.
pub fn check_fee(fee: u16, max_fee: u16) -> (checked: Result<(), MarketplaceError>)
    ensures
        checked == fee_check(fee, max_fee),
{
    if fee <= max_fee {
        Ok(())
    } else {
        Err(MarketplaceError::FeeTooHigh)
    }
}

/// The share of `value` that `bps` basis points take, or `None` where the
/// share is no balance.
pub fn share_of(value: Balance, bps: u16) -> (part: Option<Balance>)
    ensures
        match part {
            Some(p) => p == share(value as int, bps as int),
            None => share(value as int, bps as int) > Balance::MAX,
        },
{
    let whole: u128 = value / BASIS_POINTS;
    let rest: u128 = value % BASIS_POINTS;
    let rate: u128 = bps as u128;
    let ghost a = whole as int * rate as int;
    proof {
        assert(value as int * rate as int == 10_000 * a + rest as int * rate as int)
            by (nonlinear_arith)
            requires
                value as int == whole as int * 10_000 + rest as int,
                a == whole as int * rate as int,
        ;
        assert(0 <= rest as int * rate as int <= 9_999 * 65_535) by (nonlinear_arith)
            requires
                0 <= rest as int <= 9_999,
                0 <= rate as int <= 65_535,
        ;
        assert(0 <= a) by (nonlinear_arith)
            requires
                a == whole as int * rate as int,
                0 <= whole as int,
                0 <= rate as int,
        ;
    }
    let low: u128 = rest * rate / BASIS_POINTS;
    assert(share(value as int, bps as int) == a + low);
    match whole.checked_mul(rate) {
        Some(high) => high.checked_add(low),
        None => None,
    }
}

/// Divides `value` between marketplace, author and seller.
///
/// Fails with `ArithmeticOverflow` exactly when fee and royalty together
/// exceed the value, which rates above one whole can bring about.
pub fn split_payment(value: Balance, fee_bps: u16, royalty_bps: u16) -> (split: Result<
    Split,
    MarketplaceError,
>)
    ensures
        split == if splittable(value as int, fee_bps as int, royalty_bps as int) {
            Ok::<Split, MarketplaceError>(split_of(value, fee_bps, royalty_bps))
        } else {
            Err(MarketplaceError::ArithmeticOverflow)
        },
{
    proof {
        lemma_share_bounds(value as int, fee_bps as int);
        lemma_share_bounds(value as int, royalty_bps as int);
    }
    let marketplace_fee = match share_of(value, fee_bps) {
        Some(part) => part,
        None => { return Err(MarketplaceError::ArithmeticOverflow); },
    };
    let author_royalty = match share_of(value, royalty_bps) {
        Some(part) => part,
        None => { return Err(MarketplaceError::ArithmeticOverflow); },
    };
    let after_fee = match value.checked_sub(marketplace_fee) {
        Some(left) => left,
        None => { return Err(MarketplaceError::ArithmeticOverflow); },
    };
    match after_fee.checked_sub(author_royalty) {
        Some(seller_fee) => Ok(Split { marketplace_fee, author_royalty, seller_fee }),
        None => Err(MarketplaceError::ArithmeticOverflow),
    }
}

/// The marketplace-wide fee terms.
#[derive(Clone, Copy, Debug, PartialEq, Eq)]
pub struct FeeConfig {
    /// The marketplace's fee rate.
    pub fee: u16,
    /// The ceiling of the fee rate and of every royalty rate.
    pub max_fee: u16,
    /// The account that receives the marketplace's fee, once it is set.
    pub fee_recipient: Option<AccountId>,
}

/// Holds the fee terms and keeps the fee rate under its ceiling.
pub struct FeeEngine {
    config: FeeConfig,
}

impl View for FeeEngine {
    type V = FeeConfig;

    closed spec fn view(&self) -> FeeConfig {
        self.config
    }
}

impl FeeEngine {
    #[verifier::type_invariant]
    spec fn fee_under_ceiling(self) -> bool {
        self.config.fee <= self.config.max_fee
    }

    /// Fee terms with the rate `fee`, the ceiling `max_fee` and no recipient.
    /// Fails with `FeeTooHigh` exactly when `fee` is above `max_fee`.
    pub fn new(fee: u16, max_fee: u16) -> (engine: Result<Self, MarketplaceError>)
        ensures
            match engine {
                Ok(e) => fee <= max_fee && e@ == (FeeConfig { fee, max_fee, fee_recipient: None }),
                Err(e) => fee > max_fee && e == MarketplaceError::FeeTooHigh,
            },
    {
        if fee <= max_fee {
            Ok(FeeEngine { config: FeeConfig { fee, max_fee, fee_recipient: None } })
        } else {
            Err(MarketplaceError::FeeTooHigh)
        }
    }

    /// The fee terms.
    pub fn config(&self) -> (config: FeeConfig)
        ensures
            config == self@,
            config.fee <= config.max_fee,
    {
        proof {
            use_type_invariant(self);
        }
        self.config
    }

    /// Sets the fee rate. Fails with `FeeTooHigh`, and changes nothing,
    /// exactly when `fee` is above the ceiling.
    pub fn set_fee(&mut self, fee: u16) -> (set: Result<(), MarketplaceError>)
        ensures
            set == fee_check(fee, old(self)@.max_fee),
            final(self)@ == if fee <= old(self)@.max_fee {
                FeeConfig { fee, ..old(self)@ }
            } else {
                old(self)@
            },
    {
        check_fee(fee, self.config.max_fee)?;
        self.config.fee = fee;
        Ok(())
    }

    /// Names the account that receives the marketplace's fee.
    pub fn set_recipient(&mut self, fee_recipient: AccountId)
        ensures
            final(self)@ == (FeeConfig { fee_recipient: Some(fee_recipient), ..old(self)@ }),
    {
        proof {
            use_type_invariant(&*self);
        }
        self.config.fee_recipient = Some(fee_recipient);
    }
}

} // verus!
