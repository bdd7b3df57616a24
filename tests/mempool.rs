use verification::{
    MempoolAcceptance, PrevoutAcceptor,
    BackwardsCompatibleChainVerifier, DuplexTransactionOutputProvider, IndexedTransaction,
    LegacyLimits, Magic, NoopStore, OutPoint, TransactionError, TransactionOutput,
    TransactionOutputProvider, UnconfirmedTransactions, H256,
};

fn hash(n: u64) -> H256 {
    H256 { w0: n, w1: 0, w2: 0, w3: 0 }
}

fn spend(inputs: Vec<OutPoint>, values: Vec<u64>, id: u64) -> IndexedTransaction {
    IndexedTransaction {
        hash: hash(id),
        inputs,
        outputs: values.into_iter().map(|value| TransactionOutput { value }).collect(),
        size: 200,
    }
}

fn pool() -> UnconfirmedTransactions {
    let parent = spend(vec![OutPoint { hash: hash(100), index: 0 }], vec![50, 30], 1);
    UnconfirmedTransactions { transactions: vec![parent] }
}

fn chain_verifier() -> BackwardsCompatibleChainVerifier {
    BackwardsCompatibleChainVerifier::new(Magic::Unitest)
}

#[test]
fn mempool_spends_unconfirmed_output() {
    let tx = spend(vec![OutPoint { hash: hash(1), index: 0 }], vec![40], 2);
    assert_eq!(chain_verifier().verify_mempool_transaction(&pool(), 10, 20, &tx, &LegacyLimits::new(), &PrevoutAcceptor {}), Ok(()));
}

#[test]
fn mempool_spends_exact_value() {
    let tx = spend(
        vec![OutPoint { hash: hash(1), index: 0 }, OutPoint { hash: hash(1), index: 1 }],
        vec![60, 20],
        2,
    );
    assert_eq!(chain_verifier().verify_mempool_transaction(&pool(), 10, 20, &tx, &LegacyLimits::new(), &PrevoutAcceptor {}), Ok(()));
}

#[test]
fn mempool_missing_prevout_rejected() {
    let tx = spend(
        vec![OutPoint { hash: hash(1), index: 1 }, OutPoint { hash: hash(9), index: 0 }],
        vec![1],
        2,
    );
    let limits = LegacyLimits::new();
    assert_eq!(
        chain_verifier().verify_mempool_transaction(&pool(), 10, 20, &tx, &limits, &PrevoutAcceptor {}),
        Err(TransactionError::Input(1))
    );
    assert_eq!(
        chain_verifier().verify_mempool_transaction(&NoopStore {}, 10, 20, &tx, &limits, &PrevoutAcceptor {}),
        Err(TransactionError::Input(0))
    );
}

#[test]
fn mempool_output_index_out_of_range_rejected() {
    let tx = spend(vec![OutPoint { hash: hash(1), index: 2 }], vec![1], 2);
    assert_eq!(
        chain_verifier().verify_mempool_transaction(&pool(), 10, 20, &tx, &LegacyLimits::new(), &PrevoutAcceptor {}),
        Err(TransactionError::Input(0))
    );
}

#[test]
fn mempool_overspend_rejected() {
    let tx = spend(vec![OutPoint { hash: hash(1), index: 1 }], vec![20, 11], 2);
    assert_eq!(
        chain_verifier().verify_mempool_transaction(&pool(), 10, 20, &tx, &LegacyLimits::new(), &PrevoutAcceptor {}),
        Err(TransactionError::Overspend)
    );
}

#[test]
fn mempool_context_free_rules() {
    let limits = LegacyLimits::new();
    let empty = spend(vec![], vec![1], 2);
    assert_eq!(chain_verifier().verify_mempool_transaction(&pool(), 10, 20, &empty, &limits, &PrevoutAcceptor {}), Err(TransactionError::Empty));
    let no_outputs = spend(vec![OutPoint { hash: hash(1), index: 0 }], vec![], 2);
    assert_eq!(
        chain_verifier().verify_mempool_transaction(&pool(), 10, 20, &no_outputs, &limits, &PrevoutAcceptor {}),
        Err(TransactionError::Empty)
    );
    let null = OutPoint { hash: hash(0), index: u32::MAX };
    let coinbase = spend(vec![null], vec![50], 2);
    assert_eq!(
        chain_verifier().verify_mempool_transaction(&pool(), 10, 20, &coinbase, &limits, &PrevoutAcceptor {}),
        Err(TransactionError::MemoryPoolCoinbase)
    );
    let null_input = spend(vec![OutPoint { hash: hash(1), index: 0 }, null], vec![1], 2);
    assert_eq!(
        chain_verifier().verify_mempool_transaction(&pool(), 10, 20, &null_input, &limits, &PrevoutAcceptor {}),
        Err(TransactionError::NullNonCoinbase)
    );
    let mut big = spend(vec![OutPoint { hash: hash(1), index: 0 }], vec![1], 2);
    big.size = 1_000_001;
    assert_eq!(chain_verifier().verify_mempool_transaction(&pool(), 10, 20, &big, &limits, &PrevoutAcceptor {}), Err(TransactionError::Size));
    big.size = 1_000_000;
    assert_eq!(chain_verifier().verify_mempool_transaction(&pool(), 10, 20, &big, &limits, &PrevoutAcceptor {}), Ok(()));
}

#[test]
fn mempool_large_values_do_not_overflow() {
    let parent = spend(vec![OutPoint { hash: hash(100), index: 0 }], vec![u64::MAX, u64::MAX], 1);
    let provider = UnconfirmedTransactions { transactions: vec![parent] };
    let tx = spend(
        vec![OutPoint { hash: hash(1), index: 0 }, OutPoint { hash: hash(1), index: 1 }],
        vec![u64::MAX, u64::MAX],
        2,
    );
    assert_eq!(chain_verifier().verify_mempool_transaction(&provider, 10, 20, &tx, &LegacyLimits::new(), &PrevoutAcceptor {}), Ok(()));
}

#[test]
fn duplex_prefers_first_provider() {
    let first = pool();
    let other = spend(vec![OutPoint { hash: hash(100), index: 0 }], vec![7], 1);
    let second = UnconfirmedTransactions { transactions: vec![other, spend(vec![], vec![9], 3)] };
    let duplex = DuplexTransactionOutputProvider::new(&first, &second);
    assert_eq!(
        duplex.transaction_output(&OutPoint { hash: hash(1), index: 0 }, usize::MAX),
        Some(TransactionOutput { value: 50 })
    );
    assert_eq!(
        duplex.transaction_output(&OutPoint { hash: hash(3), index: 0 }, usize::MAX),
        Some(TransactionOutput { value: 9 })
    );
    assert_eq!(duplex.transaction_output(&OutPoint { hash: hash(4), index: 0 }, usize::MAX), None);
}

#[test]
fn unconfirmed_lookup_uses_first_match() {
    let a = spend(vec![], vec![1], 5);
    let b = spend(vec![], vec![2, 3], 5);
    let provider = UnconfirmedTransactions { transactions: vec![a, b] };
    assert_eq!(
        provider.transaction_output(&OutPoint { hash: hash(5), index: 0 }, 0),
        Some(TransactionOutput { value: 1 })
    );
    assert_eq!(provider.transaction_output(&OutPoint { hash: hash(5), index: 1 }, 0), None);
}

#[test]
fn mempool_acceptance_request_carries_target_and_sigops_ceiling() {
    let request = chain_verifier().mempool_acceptance_request(99, 77, &LegacyLimits::new());
    assert_eq!(
        request,
        MempoolAcceptance { network: Magic::Unitest, height: 99, time: 77, max_block_sigops: 20_000 }
    );
}
