use vstd::prelude::*;
use crate::chain_verifier::{BackwardsCompatibleChainVerifier, Magic};
use crate::consensus_limits::ConsensusLimits;
use crate::types::{IndexedTransaction, OutPoint, TransactionError, TransactionOutput};

verus! {

/// Resolves the output that a transaction input references, or reports that there is none.
pub trait TransactionOutputProvider {
    spec fn output_of(&self, prevout: OutPoint) -> Option<TransactionOutput>;

    fn transaction_output(&self, prevout: &OutPoint, transaction_index: usize) -> (r: Option<
        TransactionOutput,
    >)
        ensures
            r == self.output_of(*prevout),
    ;
}

/// A provider that knows of no output.
#[derive(Clone, Copy, Debug, PartialEq, Eq)]
pub struct NoopStore {}

impl TransactionOutputProvider for NoopStore {
    open spec fn output_of(&self, prevout: OutPoint) -> Option<TransactionOutput> {
        None
    }

    fn transaction_output(&self, prevout: &OutPoint, transaction_index: usize) -> (r: Option<
        TransactionOutput,
    >) {
        None
    }
}

/// Asks `first`, and `second` only where `first` knows of no such output.
pub struct DuplexTransactionOutputProvider<'a, F, S> {
    pub first: &'a F,
    pub second: &'a S,
}

impl<'a, F, S> DuplexTransactionOutputProvider<'a, F, S> {
    pub fn new(first: &'a F, second: &'a S) -> (r: Self)
        ensures
            r.first == first,
            r.second == second,
    {
        DuplexTransactionOutputProvider { first, second }
    }
}

impl<'a, F: TransactionOutputProvider, S: TransactionOutputProvider> TransactionOutputProvider for DuplexTransactionOutputProvider<
    'a,
    F,
    S,
> {
    open spec fn output_of(&self, prevout: OutPoint) -> Option<TransactionOutput> {
        match self.first.output_of(prevout) {
            Some(o) => Some(o),
            None => self.second.output_of(prevout),
        }
    }

    fn transaction_output(&self, prevout: &OutPoint, transaction_index: usize) -> (r: Option<
        TransactionOutput,
    >) {
        match self.first.transaction_output(prevout, transaction_index) {
            Some(o) => Some(o),
            None => self.second.transaction_output(prevout, transaction_index),
        }
    }
}

/// Whether `i` is the first position of `txs` that holds a transaction with hash `h`.
pub open spec fn is_first_with_hash(txs: Seq<IndexedTransaction>, h: crate::types::H256, i: int) -> bool {
    0 <= i < txs.len() && txs[i].hash == h && forall|j: int| 0 <= j < i ==> txs[j].hash != h
}

/// Transactions not yet in a block, whose outputs other unconfirmed transactions may spend.
pub struct UnconfirmedTransactions {
    pub transactions: Vec<IndexedTransaction>,
}

impl TransactionOutputProvider for UnconfirmedTransactions {
    /// The output at the referenced index of the first transaction with the referenced hash.
    open spec fn output_of(&self, prevout: OutPoint) -> Option<TransactionOutput> {
        let txs = self.transactions@;
        if exists|i: int| is_first_with_hash(txs, prevout.hash, i) {
            let i = choose|i: int| is_first_with_hash(txs, prevout.hash, i);
            if (prevout.index as int) < txs[i].outputs@.len() {
                Some(txs[i].outputs@[prevout.index as int])
            } else {
                None
            }
        } else {
            None
        }
    }

    fn transaction_output(&self, prevout: &OutPoint, transaction_index: usize) -> (r: Option<
        TransactionOutput,
    >) {
        let mut i: usize = 0;
        while i < self.transactions.len()
            invariant
                0 <= i <= self.transactions@.len(),
                forall|j: int| 0 <= j < i ==> self.transactions@[j].hash != prevout.hash,
            decreases self.transactions@.len() - i,
        {
            if self.transactions[i].hash == prevout.hash {
                let tx = &self.transactions[i];
                assert(is_first_with_hash(self.transactions@, prevout.hash, i as int));
                proof {
                    let k = choose|k: int| is_first_with_hash(self.transactions@, prevout.hash, k);
                    if k > i {
                        assert(self.transactions@[i as int].hash == prevout.hash);
                    }
                    assert(k == i);
                }
                if (prevout.index as usize) < tx.outputs.len() {
                    return Some(tx.outputs[prevout.index as usize]);
                } else {
                    return None;
                }
            }
            i = i + 1;
        }
        None
    }
}

/// Every output that `p` resolves, by the reference that resolves to it.
pub open spec fn resolved<P: TransactionOutputProvider>(p: &P) -> Map<OutPoint, TransactionOutput> {
    Map::new(|o: OutPoint| p.output_of(o) is Some, |o: OutPoint| p.output_of(o)->Some_0)
}

/// Whether `i` is the first input whose referenced output is not in `m`.
pub open spec fn is_first_unresolved(
    m: Map<OutPoint, TransactionOutput>,
    inputs: Seq<OutPoint>,
    i: int,
) -> bool {
    &&& 0 <= i < inputs.len()
    &&& !m.contains_key(inputs[i])
    &&& forall|j: int| 0 <= j < i ==> m.contains_key(inputs[j])
}

/// The sum of the values of the outputs in `m` that `inputs` reference.
pub open spec fn input_total(m: Map<OutPoint, TransactionOutput>, inputs: Seq<OutPoint>) -> int
    decreases inputs.len(),
{
    if inputs.len() == 0 {
        0
    } else {
        input_total(m, inputs.drop_last()) + if m.contains_key(inputs.last()) {
            m[inputs.last()].value as int
        } else {
            0
        }
    }
}

/// The sum of the values of `outputs`.
pub open spec fn output_total(outputs: Seq<TransactionOutput>) -> int
    decreases outputs.len(),
{
    if outputs.len() == 0 {
        0
    } else {
        output_total(outputs.drop_last()) + outputs.last().value as int
    }
}

/// Whether some input of `tx` references nothing.
pub open spec fn has_null_input(tx: IndexedTransaction) -> bool {
    exists|i: int| 0 <= i < tx.inputs@.len() && tx.inputs@[i].is_null_spec()
}

/// The outcome of the context-free checks on a memory-pool transaction, where
/// `max_size` is the largest transaction allowed: empty, null input, coinbase, size.
pub open spec fn pre_verification_outcome(tx: IndexedTransaction, max_size: usize) -> Result<
    (),
    TransactionError,
> {
    if tx.inputs@.len() == 0 || tx.outputs@.len() == 0 {
        Err(TransactionError::Empty)
    } else if !tx.is_coinbase_spec() && has_null_input(tx) {
        Err(TransactionError::NullNonCoinbase)
    } else if tx.is_coinbase_spec() {
        Err(TransactionError::MemoryPoolCoinbase)
    } else if tx.size > max_size {
        Err(TransactionError::Size)
    } else {
        Ok(())
    }
}

/// What contextual acceptance of a memory-pool transaction is run with: the network,
/// the height and time at which the transaction would be confirmed, and the
/// signature-operation ceiling of the limits policy.
#[derive(Clone, Copy, Debug, PartialEq, Eq, Structural)]
pub struct MempoolAcceptance {
    pub network: Magic,
    pub height: u32,
    pub time: u32,
    pub max_block_sigops: usize,
}

/// Contextual acceptance of a memory-pool transaction: the rules that need the
/// outputs it spends and the chain (maturity, overspending, signature operations,
/// double spends, scripts). `outputs` resolves the outputs that the inputs reference.
pub trait MemoryPoolTransactionAcceptor {
    spec fn acceptance_outcome(
        &self,
        outputs: Map<OutPoint, TransactionOutput>,
        request: MempoolAcceptance,
        tx: IndexedTransaction,
    ) -> Result<(), TransactionError>;

    fn check<P: TransactionOutputProvider>(
        &self,
        outputs: &P,
        request: &MempoolAcceptance,
        tx: &IndexedTransaction,
    ) -> (r: Result<(), TransactionError>)
        ensures
            r == self.acceptance_outcome(resolved(outputs), *request, *tx),
    ;
}

/// The outcome of the prevout rules alone: every input must reference an output in
/// `m`, and the values referenced must cover the outputs.
pub open spec fn prevout_outcome(m: Map<OutPoint, TransactionOutput>, tx: IndexedTransaction) -> Result<
    (),
    TransactionError,
> {
    if exists|i: int| is_first_unresolved(m, tx.inputs@, i) {
        Err(
            TransactionError::Input(
                (choose|i: int| is_first_unresolved(m, tx.inputs@, i)) as usize,
            ),
        )
    } else if input_total(m, tx.inputs@) < output_total(tx.outputs@) {
        Err(TransactionError::Overspend)
    } else {
        Ok(())
    }
}

/// The acceptance rules that need only the referenced outputs: missing inputs, then
/// overspending.
#[derive(Clone, Copy, Debug, PartialEq, Eq)]
pub struct PrevoutAcceptor {}

impl MemoryPoolTransactionAcceptor for PrevoutAcceptor {
    open spec fn acceptance_outcome(
        &self,
        outputs: Map<OutPoint, TransactionOutput>,
        request: MempoolAcceptance,
        tx: IndexedTransaction,
    ) -> Result<(), TransactionError> {
        prevout_outcome(outputs, tx)
    }

    fn check<P: TransactionOutputProvider>(
        &self,
        outputs: &P,
        request: &MempoolAcceptance,
        tx: &IndexedTransaction,
    ) -> (r: Result<(), TransactionError>) {
        let ghost inputs = tx.inputs@;
        let ghost m = resolved(outputs);
        let mut available: u128 = 0;
        let mut i: usize = 0;
        while i < tx.inputs.len()
            invariant
                0 <= i <= inputs.len(),
                inputs == tx.inputs@,
                m == resolved(outputs),
                forall|j: int| 0 <= j < i ==> m.contains_key(inputs[j]),
                available as int == input_total(m, inputs.take(i as int)),
                available as int <= i as int * 0xffff_ffff_ffff_ffff,
            decreases inputs.len() - i,
        {
            assert(inputs.take(i as int + 1).drop_last() =~= inputs.take(i as int));
            match outputs.transaction_output(&tx.inputs[i], usize::MAX) {
                None => {
                    assert(is_first_unresolved(m, inputs, i as int));
                    proof {
                        let k = choose|k: int| is_first_unresolved(m, inputs, k);
                        if k > i {
                            assert(m.contains_key(inputs[i as int]));
                        }
                        assert(k == i);
                    }
                    return Err(TransactionError::Input(i));
                },
                Some(o) => {
                    available = available + o.value as u128;
                },
            }
            i = i + 1;
        }
        assert(inputs.take(inputs.len() as int) =~= inputs);
        assert(!exists|k: int| is_first_unresolved(m, inputs, k));
        let ghost outs = tx.outputs@;
        let mut spends: u128 = 0;
        let mut i: usize = 0;
        while i < tx.outputs.len()
            invariant
                0 <= i <= outs.len(),
                outs == tx.outputs@,
                spends as int == output_total(outs.take(i as int)),
                spends as int <= i as int * 0xffff_ffff_ffff_ffff,
            decreases outs.len() - i,
        {
            assert(outs.take(i as int + 1).drop_last() =~= outs.take(i as int));
            spends = spends + tx.outputs[i].value as u128;
            i = i + 1;
        }
        assert(outs.take(outs.len() as int) =~= outs);
        if available < spends {
            Err(TransactionError::Overspend)
        } else {
            Ok(())
        }
    }
}

/// The resolver that memory-pool acceptance reads outputs through: the caller's
/// provider, then a fallback that knows of no output.
pub open spec fn mempool_outputs<T>(prevout_provider: &T) -> DuplexTransactionOutputProvider<
    '_,
    T,
    NoopStore,
> {
    DuplexTransactionOutputProvider { first: prevout_provider, second: &NoopStore {} }
}

/// The outcome of verifying `tx` for the memory pool: the context-free checks, then
/// what `acceptor` returns on the memory-pool resolver and `request`, unchanged.
pub open spec fn mempool_outcome<T: TransactionOutputProvider, A: MemoryPoolTransactionAcceptor>(
    acceptor: &A,
    prevout_provider: &T,
    request: MempoolAcceptance,
    max_size: usize,
    tx: IndexedTransaction,
) -> Result<(), TransactionError> {
    match pre_verification_outcome(tx, max_size) {
        Err(e) => Err(e),
        Ok(()) => acceptor.acceptance_outcome(resolved(prevout_provider), request, tx),
    }
}

/// The memory-pool resolver finds exactly what the caller's provider finds: nothing is
/// taken from anywhere else.
pub proof fn lemma_mempool_outputs_are_provider_outputs<T: TransactionOutputProvider>(
    prevout_provider: &T,
)
    ensures
        resolved(&mempool_outputs(prevout_provider)) == resolved(prevout_provider),
{
    assert(resolved(&mempool_outputs(prevout_provider)) =~= resolved(prevout_provider));
}

proof fn lemma_first_unresolved_exists(
    p: Map<OutPoint, TransactionOutput>,
    inputs: Seq<OutPoint>,
    i: int,
)
    requires
        0 <= i < inputs.len(),
        !p.contains_key(inputs[i]),
    ensures
        exists|k: int| is_first_unresolved(p, inputs, k),
    decreases i,
{
    if exists|j: int| 0 <= j < i && !p.contains_key(inputs[j]) {
        let j = choose|j: int| 0 <= j < i && !p.contains_key(inputs[j]);
        lemma_first_unresolved_exists(p, inputs, j);
    } else {
        assert(is_first_unresolved(p, inputs, i));
    }
}

/// A transaction that passes the context-free checks, whose every input resolves
/// through the caller's provider (to outputs of other unconfirmed transactions, say)
/// and whose inputs cover its outputs, passes the prevout rules.
pub proof fn lemma_mempool_resolved_inputs_accepted<T: TransactionOutputProvider>(
    prevout_provider: &T,
    request: MempoolAcceptance,
    max_size: usize,
    tx: IndexedTransaction,
)
    requires
        pre_verification_outcome(tx, max_size) == Ok::<(), TransactionError>(()),
        forall|i: int|
            0 <= i < tx.inputs@.len() ==> prevout_provider.output_of(tx.inputs@[i]) is Some,
        input_total(resolved(prevout_provider), tx.inputs@) >= output_total(tx.outputs@),
    ensures
        mempool_outcome(&PrevoutAcceptor {}, prevout_provider, request, max_size, tx) == Ok::<
            (),
            TransactionError,
        >(()),
{
    let m = resolved(prevout_provider);
    if exists|i: int| is_first_unresolved(m, tx.inputs@, i) {
        let i = choose|i: int| is_first_unresolved(m, tx.inputs@, i);
        assert(prevout_provider.output_of(tx.inputs@[i]) is Some);
    }
}

/// A transaction that passes the context-free checks but has an input that neither
/// the caller's provider nor anything else resolves is rejected, with the position of
/// the first such input: it never passes silently.
pub proof fn lemma_mempool_unresolved_input_rejected<T: TransactionOutputProvider>(
    prevout_provider: &T,
    request: MempoolAcceptance,
    max_size: usize,
    tx: IndexedTransaction,
    i: int,
)
    requires
        pre_verification_outcome(tx, max_size) == Ok::<(), TransactionError>(()),
        0 <= i < tx.inputs@.len(),
        prevout_provider.output_of(tx.inputs@[i]) is None,
    ensures
        exists|k: int| #![auto]
            0 <= k <= i && prevout_provider.output_of(tx.inputs@[k]) is None
                && mempool_outcome(&PrevoutAcceptor {}, prevout_provider, request, max_size, tx)
                == Err::<(), TransactionError>(TransactionError::Input(k as usize)),
{
    let p = resolved(prevout_provider);
    lemma_first_unresolved_exists(p, tx.inputs@, i);
    let k = choose|k: int| is_first_unresolved(p, tx.inputs@, k);
    if k > i {
        assert(p.contains_key(tx.inputs@[i]));
    }
    assert(0 <= k <= i && prevout_provider.output_of(tx.inputs@[k]) is None);
}

impl BackwardsCompatibleChainVerifier {
    /// What contextual acceptance of a memory-pool transaction runs with, for a
    /// confirmation at `height` and `time` under `limits`.
    pub fn mempool_acceptance_request<L: ConsensusLimits>(
        &self,
        height: u32,
        time: u32,
        limits: &L,
    ) -> (r: MempoolAcceptance)
        ensures
            r == (MempoolAcceptance {
                network: self.network,
                height,
                time,
                max_block_sigops: limits.sigops_ceiling(),
            }),
    {
        MempoolAcceptance { network: self.network, height, time, max_block_sigops: limits.max_block_sigops() }
    }

    /// Verifies a transaction bound for the memory pool, as if confirmed at `height`
    /// and `time`: first the context-free checks, then `acceptor`'s contextual rules.
    /// The acceptor reads the outputs that the transaction spends through
    /// `prevout_provider` alone (other unconfirmed transactions, say), whose fallback
    /// knows of no output, and applies the sigops ceiling of `limits`.
    pub fn verify_mempool_transaction<
        T: TransactionOutputProvider,
        L: ConsensusLimits,
        A: MemoryPoolTransactionAcceptor,
    >(
        &self,
        prevout_provider: &T,
        height: u32,
        time: u32,
        transaction: &IndexedTransaction,
        limits: &L,
        acceptor: &A,
    ) -> (r: Result<(), TransactionError>)
        ensures
            r == mempool_outcome(
                acceptor,
                prevout_provider,
                MempoolAcceptance {
                    network: self.network,
                    height,
                    time,
                    max_block_sigops: limits.sigops_ceiling(),
                },
                limits.transaction_size_ceiling(),
                *transaction,
            ),
    {
        let tx = transaction;
        if tx.inputs.len() == 0 || tx.outputs.len() == 0 {
            return Err(TransactionError::Empty);
        }
        if tx.is_coinbase() {
            return Err(TransactionError::MemoryPoolCoinbase);
        }
        let mut i: usize = 0;
        while i < tx.inputs.len()
            invariant
                0 <= i <= tx.inputs@.len(),
                tx == transaction,
                tx.inputs@.len() > 0 && tx.outputs@.len() > 0,
                !tx.is_coinbase_spec(),
                forall|j: int| 0 <= j < i ==> !tx.inputs@[j].is_null_spec(),
            decreases tx.inputs@.len() - i,
        {
            if tx.inputs[i].is_null() {
                assert(has_null_input(*tx));
                return Err(TransactionError::NullNonCoinbase);
            }
            i = i + 1;
        }
        assert(!has_null_input(*tx));
        if tx.size > limits.max_transaction_size() {
            return Err(TransactionError::Size);
        }
        let noop = NoopStore {};
        let output_store = DuplexTransactionOutputProvider::new(prevout_provider, &noop);
        assert(output_store == mempool_outputs(prevout_provider));
        proof {
            lemma_mempool_outputs_are_provider_outputs(prevout_provider);
        }
        let request = self.mempool_acceptance_request(height, time, limits);
        acceptor.check(&output_store, &request, tx)
    }
}

} // verus!
