//! Whitelist-gated transfers of a token-2022 asset with a custodial ledger.
//!
//! The library decides: whether a transfer of the controlled asset may go
//! through, whether a deposit or withdraw request is bound to a matching
//! transfer in the same batch, how the per-user ledger moves, and how the
//! whitelist registry grows and shrinks together with its storage funding.
pub mod address;
pub mod batch;
pub mod derivation;
pub mod error;
pub mod extra_accounts;
pub mod ledger;
pub mod transfer_hook;
pub mod vault;
pub mod whitelist;
