//! Transactional core of a marketplace for non-fungible assets.
//!
//! The crate keeps the books of a marketplace: which assets are for sale and
//! at what price, the royalty terms of each registered collection, the
//! marketplace-wide fee, the escrow balance of each account and the standing
//! offers that those balances back. Every operation is a function of the
//! state, the caller and the values that the host hands in; what has to
//! happen outside (asking the token registry, moving funds) is returned to
//! the caller as a step to perform.
//!
//! [`model`] holds the mathematical state and the meaning of every
//! operation, [`sale`] the operations with their contracts, [`marketplace`]
//! the marketplace that carries them out, and [`laws`] what holds of it
//! whatever is asked.
pub mod types;
pub mod table;
pub mod records;
pub mod events;
pub mod fees;
pub mod collections;
pub mod listings;
pub mod escrow;
pub mod offers;
pub mod purchase;
pub mod model;
pub mod sale;
pub mod snapshot;
pub mod marketplace;
pub mod laws;
