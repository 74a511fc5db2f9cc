//! Lifecycle core of a bundle protocol agent: retention constraints, the
//! bundle pack that carries them, age accounting and store reconciliation.

pub mod bundlepack;
pub mod constraint;
pub mod bindings;
pub mod retrieval;
pub mod store;

pub use bundlepack::{age_after, BundlePack, PackView};
pub use constraint::{Constraint, ConstraintSet};
pub use store::{MemStore, PackStore, StoreError};
pub use retrieval::{holds_bundle, payload_from_body, FetchError};
