//! A weighted multisignature wallet.
//!
//! A wallet guards a privileged action behind a set of owners, each with a
//! weight. An owner proposes a transaction, owners approve it, and it can be
//! executed once the weight of its approvals reaches the wallet's threshold.
//! The library holds the records and the rules; the host supplies the caller's
//! identity, the time, and the means to carry out a payload.

pub mod constants;
pub mod errors;
pub mod identity;
pub mod instructions;
pub mod laws;
pub mod multisig_wallet;
pub mod rules;
pub mod state;
