//! Identifiers, amounts and errors shared by every component.
use crate::table::Key;
use vstd::prelude::*;
use vstd::std_specs::cmp::PartialEqSpecImpl;

verus! {

/// An amount of the host's native currency.
pub type Balance = u128;

/// Tells whether two byte strings hold the same bytes.
pub fn bytes_equal(a: &[u8], b: &[u8]) -> (same: bool)
    ensures
        same == (a@ == b@),
{
    if a.len() != b.len() {
        return false;
    }
    let mut i: usize = 0;
    while i < a.len()
        invariant
            a.len() == b.len(),
            i <= a.len(),
            forall|j: int| 0 <= j < i ==> a@[j] == b@[j],
        decreases a.len() - i,
    {
        if a[i] != b[i] {
            return false;
        }
        i += 1;
    }
    assert(a@ =~= b@);
    true
}

/// Copies a byte string into a vector of its own.
pub fn copy_bytes(a: &[u8]) -> (copy: Vec<u8>)
    ensures
        copy@ == a@,
{
    let mut copy: Vec<u8> = Vec::new();
    let mut i: usize = 0;
    while i < a.len()
        invariant
            i <= a.len(),
            copy@ == a@.subrange(0, i as int),
        decreases a.len() - i,
    {
        copy.push(a[i]);
        assert(copy@ =~= a@.subrange(0, i + 1));
        i += 1;
    }
    assert(a@.subrange(0, a.len() as int) =~= a@);
    copy
}

/// Two arrays of bytes are equal exactly when their views are.
pub proof fn lemma_same_bytes(a: [u8; 32], b: [u8; 32])
    ensures
        (a@ == b@) == (a == b),
{
    if a@ == b@ {
        assert forall|i: int| 0 <= i < 32 implies a[i] == b[i] by {
            assert(a@[i] == b@[i]);
        }
        assert(a =~= b);
    }
}

/// The identity of an account: a caller, an owner, a collection's contract.
#[derive(Clone, Copy, Debug, Eq, Hash)]
pub struct AccountId {
    pub bytes: [u8; 32],
}

impl PartialEq for AccountId {
    fn eq(&self, other: &Self) -> (same: bool) {
        let same = bytes_equal(self.bytes.as_slice(), other.bytes.as_slice());
        proof {
            lemma_same_bytes(self.bytes, other.bytes);
        }
        same
    }
}

impl PartialEqSpecImpl for AccountId {
    open spec fn obeys_eq_spec() -> bool {
        true
    }

    open spec fn eq_spec(&self, other: &Self) -> bool {
        *self == *other
    }
}

impl AccountId {
    /// The account whose identifier is `bytes`.
    pub fn new(bytes: [u8; 32]) -> (id: Self)
        ensures
            id.bytes == bytes,
    {
        AccountId { bytes }
    }
}

impl View for AccountId {
    type V = AccountId;

    open spec fn view(&self) -> AccountId {
        *self
    }
}

impl Key for AccountId {
    fn same(&self, other: &Self) -> (same: bool) {
        *self == *other
    }
}

/// The hash of a contract's code, as the host's factory call takes it.
#[derive(Clone, Copy, Debug, Eq, Hash)]
pub struct CodeHash {
    pub bytes: [u8; 32],
}

impl PartialEq for CodeHash {
    fn eq(&self, other: &Self) -> (same: bool) {
        let same = bytes_equal(self.bytes.as_slice(), other.bytes.as_slice());
        proof {
            lemma_same_bytes(self.bytes, other.bytes);
        }
        same
    }
}

impl PartialEqSpecImpl for CodeHash {
    open spec fn obeys_eq_spec() -> bool {
        true
    }

    open spec fn eq_spec(&self, other: &Self) -> bool {
        *self == *other
    }
}

impl CodeHash {
    /// The hash whose bytes are `bytes`.
    pub fn new(bytes: [u8; 32]) -> (hash: Self)
        ensures
            hash.bytes == bytes,
    {
        CodeHash { bytes }
    }
}

impl View for CodeHash {
    type V = CodeHash;

    open spec fn view(&self) -> CodeHash {
        *self
    }
}

/// The identifier of an asset within its collection. Identifiers of
/// different widths are different identifiers: `U8(1)` is not `U16(1)`.
#[derive(Debug, Eq, Hash)]
pub enum TokenId {
    U8(u8),
    U16(u16),
    U32(u32),
    U64(u64),
    U128(u128),
    Bytes(Vec<u8>),
}

/// What a [`TokenId`] stands for.
pub ghost enum TokenIdView {
    U8(u8),
    U16(u16),
    U32(u32),
    U64(u64),
    U128(u128),
    Bytes(Seq<u8>),
}

impl View for TokenId {
    type V = TokenIdView;

    open spec fn view(&self) -> TokenIdView {
        match *self {
            TokenId::U8(n) => TokenIdView::U8(n),
            TokenId::U16(n) => TokenIdView::U16(n),
            TokenId::U32(n) => TokenIdView::U32(n),
            TokenId::U64(n) => TokenIdView::U64(n),
            TokenId::U128(n) => TokenIdView::U128(n),
            TokenId::Bytes(bytes) => TokenIdView::Bytes(bytes@),
        }
    }
}

impl Clone for TokenId {
    fn clone(&self) -> (copy: Self)
        ensures
            copy@ == self@,
    {
        match self {
            TokenId::U8(n) => TokenId::U8(*n),
            TokenId::U16(n) => TokenId::U16(*n),
            TokenId::U32(n) => TokenId::U32(*n),
            TokenId::U64(n) => TokenId::U64(*n),
            TokenId::U128(n) => TokenId::U128(*n),
            TokenId::Bytes(bytes) => TokenId::Bytes(copy_bytes(bytes.as_slice())),
        }
    }
}

impl PartialEq for TokenId {
    fn eq(&self, other: &Self) -> (same: bool) {
        match self {
            TokenId::U8(a) => match other {
                TokenId::U8(b) => *a == *b,
                _ => false,
            },
            TokenId::U16(a) => match other {
                TokenId::U16(b) => *a == *b,
                _ => false,
            },
            TokenId::U32(a) => match other {
                TokenId::U32(b) => *a == *b,
                _ => false,
            },
            TokenId::U64(a) => match other {
                TokenId::U64(b) => *a == *b,
                _ => false,
            },
            TokenId::U128(a) => match other {
                TokenId::U128(b) => *a == *b,
                _ => false,
            },
            TokenId::Bytes(a) => match other {
                TokenId::Bytes(b) => bytes_equal(a.as_slice(), b.as_slice()),
                _ => false,
            },
        }
    }
}

impl PartialEqSpecImpl for TokenId {
    open spec fn obeys_eq_spec() -> bool {
        true
    }

    open spec fn eq_spec(&self, other: &Self) -> bool {
        self@ == other@
    }
}

/// The key of an asset: its collection and its identifier there.
pub type AssetKey = (AccountId, TokenId);

impl Key for (AccountId, TokenId) {
    fn same(&self, other: &Self) -> (same: bool) {
        self.0 == other.0 && self.1 == other.1
    }
}

impl Key for u128 {
    fn same(&self, other: &Self) -> (same: bool) {
        *self == *other
    }
}

/// The kinds of asset contract that the marketplace's factory can
/// instantiate.
#[derive(Clone, Copy, Debug, PartialEq, Eq, Hash, Structural)]
pub enum NftContractType {
    Psp34,
    Rmrk,
}

impl View for NftContractType {
    type V = NftContractType;

    open spec fn view(&self) -> NftContractType {
        *self
    }
}

impl Key for NftContractType {
    fn same(&self, other: &Self) -> (same: bool) {
        *self == *other
    }
}

/// Why an operation failed. A failed operation leaves the books as they
/// were.
#[derive(Clone, Copy, Debug, PartialEq, Eq, Hash, Structural)]
pub enum MarketplaceError {
    /// The collection has not been registered.
    NotRegisteredContract,
    /// The caller is not the owner that the operation asks for.
    NotOwner,
    /// The token registry knows no owner of the asset.
    TokenDoesNotExist,
    /// The owner has not allowed the marketplace to transfer the asset.
    TokenNotApproved,
    /// The asset is not listed for sale.
    ItemNotListedForSale,
    /// The buyer already owns the asset.
    AlreadyOwner,
    /// The payment is less than the listed price.
    BadBuyValue,
    /// A rate is above the marketplace's ceiling.
    FeeTooHigh,
    /// The collection is registered already.
    ContractAlreadyRegistered,
    /// The escrow balance does not cover the amount.
    BalanceInsufficient,
    /// The payment to the seller, or to a withdrawing account, failed.
    TransferToOwnerFailed,
    /// The payment of the marketplace's fee failed.
    TransferToMarketplaceFailed,
    /// The payment of the royalty failed.
    TransferToAuthorFailed,
    /// The token registry did not transfer the asset.
    UnableToTransferToken,
    /// No code hash is stored for the kind of contract.
    NftContractHashNotSet,
    /// No offer has the number.
    OfferNotFound,
    /// The marketplace has no account to pay its fee to.
    FeeRecipientNotSet,
    /// A purchase is in flight: no other may begin before it ends.
    ReentrantCall,
    /// No purchase in flight waits for the outcome that was reported.
    UnexpectedOutcome,
    /// An amount does not fit the range of balances.
    ArithmeticOverflow,
    /// What was laid out is not the state of any marketplace.
    InvalidSnapshot,
}

} // verus!
