//! Verified logic of the Polkadot relay chain: the cross-consensus message
//! outcome and routing rules, the fee multiplier update, the
//! currency-to-vote conversion and the order of parachain clean-ups.

pub mod xcm;
pub mod routing;
pub mod fee;
pub mod currency;
pub mod cleanup;
pub mod tuples;
pub mod tuple_laws;
