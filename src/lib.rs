//! Block and transaction verification pipeline of a full node.

pub mod chain_verifier;
pub mod consensus_limits;
pub mod mempool;
pub mod types;

pub use chain_verifier::{
    Action, BackwardsCompatibleChainVerifier, BlockVerification, Event, Fatal, Magic, Phase,
    StoreView,
};
pub use consensus_limits::{ConsensusLimits, LegacyLimits, LimitsSnapshot};
pub use mempool::{
    DuplexTransactionOutputProvider, MemoryPoolTransactionAcceptor, MempoolAcceptance, NoopStore,
    PrevoutAcceptor, TransactionOutputProvider,
    UnconfirmedTransactions,
};
pub use types::{
    BestBlockReport, BlockHeader, BlockOrigin, DbError, Error, IndexedBlockHeader,
    IndexedTransaction, OutPoint, SideChainOrigin, TransactionError, TransactionOutput, H256,
};
