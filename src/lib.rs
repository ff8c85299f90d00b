//! Client-side construction of a compressed `Hotkey` record: its canonical
//! encoding, address derivation, the new-account transition request, the
//! program-derived signer, and the admission rules of the state store that
//! the request is submitted to.
pub mod record;
pub mod context;
pub mod hashing;
pub mod address;
pub mod signer;
pub mod payload;
pub mod create;
pub mod store;
pub mod attempt;
