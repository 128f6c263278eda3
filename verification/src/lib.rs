//! A typed ordered store with a small, closed vocabulary of mutations.
//!
//! [`ListStore`] keeps a sequence of typed elements and exposes indexed
//! reads and writes whose behaviour is stated over a `Seq` view of the
//! contents. [`ListDiff`] names the four supported mutation intents —
//! replace everything, append, move an element up, move it down — and
//! [`ListStore::update`] applies one such intent as a single step.

pub mod diff;
pub mod laws;
pub mod store;

pub use diff::ListDiff;
pub use store::ListStore;
pub use store::StoreError;
