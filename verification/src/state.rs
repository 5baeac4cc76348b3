//! The stored records: owners, wallets, payloads and transactions.

pub mod owner;
pub mod payload;
pub mod pending;
pub mod transaction;
pub mod wallet;

pub use owner::OwnerInfo;
pub use payload::{TransactionAccountMeta, TransactionInstruction};
pub use pending::PendingTransactionInfo;
pub use transaction::{Transaction, TransactionStatus, TransactionView};
pub use wallet::{MultisigWallet, WalletView};
