use vstd::prelude::*;

verus! {

/// A 256-bit content hash, held as four 64-bit words.
#[derive(Clone, Copy, Debug, PartialEq, Eq, Structural)]
pub struct H256 {
    pub w0: u64,
    pub w1: u64,
    pub w2: u64,
    pub w3: u64,
}

impl H256 {
    pub fn zero() -> (r: H256)
        ensures
            r.is_zero_spec(),
    {
        H256 { w0: 0, w1: 0, w2: 0, w3: 0 }
    }

    pub open spec fn is_zero_spec(&self) -> bool {
        self.w0 == 0 && self.w1 == 0 && self.w2 == 0 && self.w3 == 0
    }

    pub fn is_zero(&self) -> (r: bool)
        ensures
            r == self.is_zero_spec(),
    {
        self.w0 == 0 && self.w1 == 0 && self.w2 == 0 && self.w3 == 0
    }
}

/// A reference to the output `index` of the transaction with hash `hash`.
#[derive(Clone, Copy, Debug, PartialEq, Eq, Structural)]
pub struct OutPoint {
    pub hash: H256,
    pub index: u32,
}

impl OutPoint {
    /// The reference that a coinbase input carries: it names no output.
    pub open spec fn is_null_spec(&self) -> bool {
        self.hash.is_zero_spec() && self.index == u32::MAX
    }

    pub fn is_null(&self) -> (r: bool)
        ensures
            r == self.is_null_spec(),
    {
        self.hash.is_zero() && self.index == u32::MAX
    }
}

/// An output of a transaction: the amount it holds.
#[derive(Clone, Copy, Debug, PartialEq, Eq, Structural)]
pub struct TransactionOutput {
    pub value: u64,
}

/// A transaction together with its hash.
#[derive(Clone, Debug)]
pub struct IndexedTransaction {
    pub hash: H256,
    /// The outputs that the inputs spend, in input order.
    pub inputs: Vec<OutPoint>,
    pub outputs: Vec<TransactionOutput>,
    /// Serialized size in bytes.
    pub size: usize,
}

impl IndexedTransaction {
    /// A coinbase transaction has one input, and that input references nothing.
    pub open spec fn is_coinbase_spec(&self) -> bool {
        self.inputs@.len() == 1 && self.inputs@[0].is_null_spec()
    }

    pub fn is_coinbase(&self) -> (r: bool)
        ensures
            r == self.is_coinbase_spec(),
    {
        self.inputs.len() == 1 && self.inputs[0].is_null()
    }
}

/// The fields of a block header that the context-free header checks read.
#[derive(Clone, Copy, Debug, PartialEq, Eq, Structural)]
pub struct BlockHeader {
    pub version: u32,
    pub previous_header_hash: H256,
    pub merkle_root_hash: H256,
    pub time: u32,
    pub bits: u32,
    pub nonce: u32,
}

/// A header together with its hash.
#[derive(Clone, Copy, Debug, PartialEq, Eq, Structural)]
pub struct IndexedBlockHeader {
    pub hash: H256,
    pub raw: BlockHeader,
}

impl IndexedBlockHeader {
    pub fn new(hash: H256, raw: BlockHeader) -> (r: Self)
        ensures
            r.hash == hash,
            r.raw == raw,
    {
        IndexedBlockHeader { hash, raw }
    }
}

/// Where a side branch leaves the canon chain, and the height the new block takes on it.
#[derive(Clone, Copy, Debug, PartialEq, Eq, Structural)]
pub struct SideChainOrigin {
    pub ancestor: u32,
    pub block_number: u32,
}

/// How a block relates to the chain that the store holds.
#[derive(Clone, Copy, Debug, PartialEq, Eq, Structural)]
pub enum BlockOrigin {
    KnownBlock,
    CanonChain { block_number: u32 },
    SideChain(SideChainOrigin),
    SideChainBecomingCanonChain(SideChainOrigin),
}

/// The store's view of its own tip: the best hash and number, and the hash that its
/// number-to-hash index gives for that number.
#[derive(Clone, Copy, Debug, PartialEq, Eq, Structural)]
pub struct BestBlockReport {
    pub hash: H256,
    pub number: u32,
    pub hash_at_number: Option<H256>,
}

impl BestBlockReport {
    pub open spec fn is_consistent_spec(&self) -> bool {
        self.hash_at_number == Some(self.hash)
    }

    pub fn is_consistent(&self) -> (r: bool)
        ensures
            r == self.is_consistent_spec(),
    {
        match self.hash_at_number {
            Some(h) => h == self.hash,
            None => false,
        }
    }
}

/// Errors of the chain store, passed through unchanged.
#[derive(Clone, Copy, Debug, PartialEq, Eq, Structural)]
pub enum DbError {
    UnknownParent,
    AncientFork,
    CannotCanonize,
    CannotDecanonize,
    Inconsistent,
}

/// Rule violations of a single transaction.
#[derive(Clone, Copy, Debug, PartialEq, Eq, Structural)]
pub enum TransactionError {
    Empty,
    NullNonCoinbase,
    MemoryPoolCoinbase,
    Input(usize),
    Maturity,
    Overspend,
    MaxSigops,
    Signature(usize),
    Size,
    UsingSpentOutput(H256, u32),
}

/// Rule violations of a block, and store errors met while checking one.
#[derive(Clone, Copy, Debug, PartialEq, Eq, Structural)]
pub enum Error {
    Database(DbError),
    Transaction(usize, TransactionError),
    MaximumSigops,
    CoinbaseOverspend { expected_max: u64, actual: u64 },
    FuturisticTimestamp,
    Pow,
    Timestamp,
    Size(usize),
    Empty,
    MerkleRoot,
    FirstCoinbase,
}

} // verus!
