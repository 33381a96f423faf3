//! Iceberg table providers for DataFusion, verified.
//!
//! There are two providers:
//!
//! - [`IcebergTableProvider`]: catalog-backed, with automatic metadata refresh. Use it for write
//!   operations and when you need to see the latest table state.
//!
//! - [`IcebergStaticTableProvider`]: for read-only access to a specific table snapshot. Use it
//!   for consistent analytical queries or time-travel scenarios.
//!
//! The providers decide what is planned; they neither talk to a catalog nor make operators.
//! Where an operation starts from the latest state of the table, it takes what the catalog gave
//! for it; an append hands out one action after another and takes back the plans that come of
//! them. What `iceberg` and `arrow` contribute is in [`outside`], and what holds of the
//! providers as a whole in [`laws`].

pub mod commit;
pub mod error;
pub mod insert;
pub mod laws;
pub mod outside;
pub mod provider;
pub mod scan;
pub mod schema;
pub mod static_provider;
pub mod text;

pub use provider::{IcebergMetadataTableProvider, IcebergTableProvider};
pub use static_provider::IcebergStaticTableProvider;
