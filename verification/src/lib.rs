//! Atomic launch-and-seed workflow for a fee-bearing token on a shared
//! ledger: charge a flat launch fee, mint a token whose transfers withhold a
//! configurable fee, bootstrap a concentrated-liquidity pool pairing it
//! against a reference asset, and open a single-sided liquidity position —
//! all within one all-or-nothing unit of execution.
//!
//! The crate is organised leaf-first:
//! - [`tick_math`] holds the fixed-point price derivation: a discrete tick
//!   index becomes a square-root price in Q64.64 format, bit-exact with the
//!   external market maker's own derivation.
//! - [`address`] derives the seed byte strings from which the ledger
//!   addresses of pools, positions and tick arrays are computed.
//! - [`model`] holds the data model: account facts, created records, the
//!   sequence's phases, and the error taxonomy.
//! - [`clmm`] models the two pool-side steps — pool creation and position
//!   opening — as transitions on those records.
//! - [`launch`] sequences fee collection, token minting, pool bootstrap and
//!   position opening, and states exactly when the launch succeeds, what it
//!   leaves behind, and which error each rejected input surfaces.

pub mod address;
pub mod clmm;
pub mod launch;
pub mod model;
pub mod tick_math;
