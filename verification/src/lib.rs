//! Validation, flattening and executor preparation for MEV bundle
//! simulation.
pub mod executor;
pub mod external;
pub mod laws;
pub mod parser;
pub mod sim;
pub mod types;

pub use executor::{BundleInclusion, BundleResult, BundleTransaction};
pub use external::DecodedTx;
pub use parser::{flatten_bundle, BundleParseError, FlattenedBundleItem};
pub use types::{
    BlockOverrides, BundleItem, Inclusion, Privacy, RefundConfig, RefundEntry, SendBundleRequest,
    Validity,
};
