//! Schema inspection and dump-orchestration core for an anonymizing
//! PostgreSQL exporter.
//!
//! The library reconstructs a relational model (tables, columns, sequences,
//! foreign-key dependencies, size estimates) from catalog metadata and
//! resolves user configuration into a concrete export plan (transaction
//! isolation, output sink, progress indicator).  Live catalog access and the
//! external dump utility sit outside this crate; the inspector works on a
//! plain-data snapshot of the catalog relations it queries.

pub mod catalog;
pub mod inspector;
pub mod model;
pub mod orchestrator;
