//! A verification context for CKB contracts: it holds deployed cells, headers and
//! block extensions, builds scripts that point at deployed code, fills in the cell
//! dependencies that a transaction needs, and resolves a transaction's inputs and
//! dependencies against the cells it holds.
use vstd::prelude::*;

pub mod table;
pub mod types;
pub mod primitives;
pub mod context;
pub mod complete;
pub mod tx_verifier;
pub mod resolve;
pub mod laws;
pub mod simulator;
