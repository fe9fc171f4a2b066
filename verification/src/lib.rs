//! Verified core of the WRAPS address-book rotation library: field and curve
//! values, Schnorr proofs of knowledge, address-book validation, the threshold
//! signing protocol's request checks and the layout of the step inputs that the
//! recursive proof consumes.

pub mod error;
pub mod field;
pub mod curve;
pub mod pok;
pub mod keys;
pub mod addressbook;
pub mod protocol;
