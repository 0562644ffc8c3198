//! A two-party, two-asset escrow engine.
//!
//! Party A deposits a fixed quantity of asset X, party B a fixed quantity of
//! asset Y; each side may then only withdraw along a strict swap-or-cancel
//! protocol, driven by a six-state machine persisted in an [`state::Escrow`]
//! record. Custody rests on deterministic, keyless addresses ([`pda`])
//! derived from the parties and mints, so that no trusted third party holds
//! a signing key.
//!
//! The [`processor`] module holds the three operations and their exact
//! specifications; [`ledger`] the asset-ledger model every movement goes
//! through; [`laws`] the proved protocol guarantees; [`state`] and
//! [`instruction`] the persisted record and the wire format of requests.

pub mod addr;
pub mod codec;
pub mod error;
pub mod instruction;
pub mod laws;
pub mod ledger;
pub mod pda;
pub mod processor;
pub mod state;
