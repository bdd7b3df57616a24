use vstd::prelude::*;
use crate::consensus_limits::{is_snapshot_of, ConsensusLimits, LimitsSnapshot};
use crate::types::{BestBlockReport, BlockHeader, BlockOrigin, DbError, Error, H256, IndexedBlockHeader, SideChainOrigin};

verus! {

/// The network whose rules a verifier applies.
#[derive(Clone, Copy, Debug, PartialEq, Eq, Structural)]
pub enum Magic {
    Mainnet,
    Testnet,
    Regtest,
    Unitest,
    Other(u32),
}

/// Which read view of the store contextual acceptance runs against.
#[derive(Clone, Copy, Debug, PartialEq, Eq, Structural)]
pub enum StoreView {
    /// The store itself: the block extends the canon chain.
    Canon,
    /// The view of a side branch that the last `Fork` action asked for.
    Fork,
}

/// Breaches of the store's contract, after which verification must not go on.
#[derive(Clone, Copy, Debug, PartialEq, Eq, Structural)]
pub enum Fatal {
    /// The store classified the block as one it already holds.
    KnownBlock,
    /// The store's best block disagrees with its own number-to-hash index.
    InconsistentBestBlock,
}

/// What the driver of a block verification must do next.
#[derive(Clone, Copy, Debug, PartialEq, Eq)]
pub enum Action {
    /// Run the context-free block checks against `current_time` and `limits`; answer
    /// with `Checked`.
    PreVerify { network: Magic, current_time: u32, limits: LimitsSnapshot },
    /// Read the store's best block and its number-to-hash entry; answer with `BestBlock`.
    ReadBestBlock,
    /// Ask the store where the block's header attaches; answer with `Origin`.
    ClassifyOrigin,
    /// Ask the store for a read view of this side branch; answer with `Forked`.
    Fork(SideChainOrigin),
    /// Run contextual acceptance on `view` at height `block_number` under `limits`;
    /// answer with `Checked`.
    Accept { view: StoreView, network: Magic, block_number: u32, limits: LimitsSnapshot },
    /// Verification is over, with this outcome.
    Finish(Result<(), Error>),
    /// The store broke its contract: stop the node rather than go on.
    Abort(Fatal),
}

/// The answer of the driver to the last action.
#[derive(Clone, Copy, Debug, PartialEq, Eq)]
pub enum Event {
    Checked(Result<(), Error>),
    BestBlock(BestBlockReport),
    Origin(Result<BlockOrigin, Error>),
    Forked(Result<(), Error>),
}

/// How far a block verification has come.
#[derive(Clone, Copy, Debug, PartialEq, Eq, Structural)]
pub enum Phase {
    PreVerifying,
    CheckingTip,
    Classifying,
    Forking { block_number: u32 },
    Accepting,
    RecheckingTip,
    Done,
}

/// Whether `event` answers the action that left a verification in `phase`.
pub open spec fn expects_spec(phase: Phase, event: Event) -> bool {
    match (phase, event) {
        (Phase::PreVerifying, Event::Checked(_)) => true,
        (Phase::CheckingTip, Event::BestBlock(_)) => true,
        (Phase::Classifying, Event::Origin(_)) => true,
        (Phase::Forking { .. }, Event::Forked(_)) => true,
        (Phase::Accepting, Event::Checked(_)) => true,
        (Phase::RecheckingTip, Event::BestBlock(_)) => true,
        _ => false,
    }
}

/// The next phase and action, from the current phase and the driver's answer.
pub open spec fn transition(
    network: Magic,
    limits: LimitsSnapshot,
    phase: Phase,
    event: Event,
) -> (Phase, Action) {
    match (phase, event) {
        (Phase::PreVerifying, Event::Checked(Err(e))) => (Phase::Done, Action::Finish(Err(e))),
        (Phase::PreVerifying, Event::Checked(Ok(()))) => (Phase::CheckingTip, Action::ReadBestBlock),
        (Phase::CheckingTip, Event::BestBlock(tip)) => if tip.is_consistent_spec() {
            (Phase::Classifying, Action::ClassifyOrigin)
        } else {
            (Phase::Done, Action::Abort(Fatal::InconsistentBestBlock))
        },
        (Phase::Classifying, Event::Origin(Err(e))) => (Phase::Done, Action::Finish(Err(e))),
        (Phase::Classifying, Event::Origin(Ok(origin))) => match origin {
            BlockOrigin::KnownBlock => (Phase::Done, Action::Abort(Fatal::KnownBlock)),
            BlockOrigin::CanonChain { block_number } => (
                Phase::Accepting,
                Action::Accept { view: StoreView::Canon, network, block_number, limits },
            ),
            BlockOrigin::SideChain(o) => (
                Phase::Forking { block_number: o.block_number },
                Action::Fork(o),
            ),
            BlockOrigin::SideChainBecomingCanonChain(o) => (
                Phase::Forking { block_number: o.block_number },
                Action::Fork(o),
            ),
        },
        (Phase::Forking { .. }, Event::Forked(Err(e))) => (Phase::Done, Action::Finish(Err(e))),
        (Phase::Forking { block_number }, Event::Forked(Ok(()))) => (
            Phase::Accepting,
            Action::Accept { view: StoreView::Fork, network, block_number, limits },
        ),
        (Phase::Accepting, Event::Checked(Err(e))) => (Phase::Done, Action::Finish(Err(e))),
        (Phase::Accepting, Event::Checked(Ok(()))) => (Phase::RecheckingTip, Action::ReadBestBlock),
        (Phase::RecheckingTip, Event::BestBlock(tip)) => if tip.is_consistent_spec() {
            (Phase::Done, Action::Finish(Ok(())))
        } else {
            (Phase::Done, Action::Abort(Fatal::InconsistentBestBlock))
        },
        _ => (phase, Action::Abort(Fatal::InconsistentBestBlock)),
    }
}

/// The phase reached and the last action issued after a verification in `phase` is
/// answered with `events`, one after the other.
pub open spec fn run(
    network: Magic,
    limits: LimitsSnapshot,
    phase: Phase,
    events: Seq<Event>,
) -> (Phase, Option<Action>)
    decreases events.len(),
{
    if events.len() == 0 {
        (phase, None)
    } else {
        let (next, action) = transition(network, limits, phase, events[0]);
        if events.len() == 1 {
            (next, Some(action))
        } else {
            run(network, limits, next, events.drop_first())
        }
    }
}

/// The answers that a driver gives up to and including contextual acceptance, when the
/// context-free checks pass, the store reports the tip `before`, classifies the block
/// as `origin` and, for a side branch, yields its view; `acceptance` is what the
/// contextual checks return.
pub open spec fn answers_through_acceptance(
    origin: BlockOrigin,
    before: BestBlockReport,
    acceptance: Result<(), Error>,
) -> Seq<Event> {
    match origin {
        BlockOrigin::CanonChain { .. } => seq![
            Event::Checked(Ok(())),
            Event::BestBlock(before),
            Event::Origin(Ok(origin)),
            Event::Checked(acceptance),
        ],
        _ => seq![
            Event::Checked(Ok(())),
            Event::BestBlock(before),
            Event::Origin(Ok(origin)),
            Event::Forked(Ok(())),
            Event::Checked(acceptance),
        ],
    }
}

/// A block whose parent the store does not know is rejected with the store's
/// unknown-parent error; more generally every error of origin classification is
/// returned unchanged.
pub proof fn lemma_unknown_parent_rejected(network: Magic, limits: LimitsSnapshot, tip: BestBlockReport, e: Error)
    requires
        tip.is_consistent_spec(),
    ensures
        run(
            network,
            limits,
            Phase::PreVerifying,
            seq![Event::Checked(Ok(())), Event::BestBlock(tip), Event::Origin(Err(e))],
        ) == (Phase::Done, Some(Action::Finish(Err(e)))),
        run(
            network,
            limits,
            Phase::PreVerifying,
            seq![
                Event::Checked(Ok(())),
                Event::BestBlock(tip),
                Event::Origin(Err(Error::Database(DbError::UnknownParent))),
            ],
        ) == (Phase::Done, Some(Action::Finish(Err(Error::Database(DbError::UnknownParent))))),
{
    reveal_with_fuel(run, 4);
    let s = seq![Event::Checked(Ok(())), Event::BestBlock(tip), Event::Origin(Err(e))];
    assert(s.drop_first() =~= seq![Event::BestBlock(tip), Event::Origin(Err(e))]);
    assert(s.drop_first().drop_first() =~= seq![Event::Origin(Err(e))]);
    let u = Event::Origin(Err(Error::Database(DbError::UnknownParent)));
    let t = seq![Event::Checked(Ok(())), Event::BestBlock(tip), u];
    assert(t.drop_first() =~= seq![Event::BestBlock(tip), u]);
    assert(t.drop_first().drop_first() =~= seq![u]);
}

/// Whatever the context-free checks reject is returned before the store is consulted.
pub proof fn lemma_pre_verification_error_returned(network: Magic, limits: LimitsSnapshot, e: Error)
    ensures
        run(network, limits, Phase::PreVerifying, seq![Event::Checked(Err(e))])
            == (Phase::Done, Some(Action::Finish(Err(e)))),
{
    reveal_with_fuel(run, 2);
}

/// Contextual acceptance on a canon block runs on the store itself, and on a side-branch
/// block on the view of that branch, at the height that the classification gave.
pub proof fn lemma_acceptance_view(network: Magic, limits: LimitsSnapshot, before: BestBlockReport, origin: BlockOrigin)
    requires
        before.is_consistent_spec(),
        origin != BlockOrigin::KnownBlock,
    ensures
        ({
            let answers = answers_through_acceptance(origin, before, Ok(()));
            let prefix = answers.take(answers.len() - 1);
            run(network, limits, Phase::PreVerifying, prefix).1 == Some(match origin {
                BlockOrigin::CanonChain { block_number } => Action::Accept {
                    view: StoreView::Canon,
                    network,
                    block_number,
                    limits,
                },
                BlockOrigin::SideChain(o) => Action::Accept {
                    view: StoreView::Fork,
                    network,
                    block_number: o.block_number,
                    limits,
                },
                BlockOrigin::SideChainBecomingCanonChain(o) => Action::Accept {
                    view: StoreView::Fork,
                    network,
                    block_number: o.block_number,
                    limits,
                },
                BlockOrigin::KnownBlock => Action::Abort(Fatal::KnownBlock),
            })
        }),
{
    reveal_with_fuel(run, 5);
    let answers = answers_through_acceptance(origin, before, Ok(()));
    let p = answers.take(answers.len() - 1);
    assert(p.drop_first() =~= p.subrange(1, p.len() as int));
    assert(p.drop_first().drop_first() =~= p.subrange(2, p.len() as int));
    assert(p.drop_first().drop_first().drop_first() =~= p.subrange(3, p.len() as int));
}

/// Every error of contextual acceptance (maturity, overspend, signature operations,
/// coinbase value, each with its transaction index or amounts) is the outcome of the
/// verification, unchanged.
pub proof fn lemma_acceptance_error_returned(
    network: Magic,
    limits: LimitsSnapshot,
    before: BestBlockReport,
    origin: BlockOrigin,
    e: Error,
)
    requires
        before.is_consistent_spec(),
        origin != BlockOrigin::KnownBlock,
    ensures
        run(network, limits, Phase::PreVerifying, answers_through_acceptance(origin, before, Err(e)))
            == (Phase::Done, Some(Action::Finish(Err(e)))),
{
    reveal_with_fuel(run, 6);
    let a = answers_through_acceptance(origin, before, Err(e));
    assert(a.drop_first() =~= a.subrange(1, a.len() as int));
    assert(a.drop_first().drop_first() =~= a.subrange(2, a.len() as int));
    assert(a.drop_first().drop_first().drop_first() =~= a.subrange(3, a.len() as int));
    assert(a.drop_first().drop_first().drop_first().drop_first() =~= a.subrange(4, a.len() as int));
}

/// A block that passes every check, on the canon chain or on a side branch, is
/// accepted while the store's tip stays consistent; the verification issues reads
/// only, so the canon chain is left as it was.
pub proof fn lemma_valid_block_accepted(
    network: Magic,
    limits: LimitsSnapshot,
    before: BestBlockReport,
    after: BestBlockReport,
    origin: BlockOrigin,
)
    requires
        before.is_consistent_spec(),
        after.is_consistent_spec(),
        origin != BlockOrigin::KnownBlock,
    ensures
        run(
            network,
            limits,
            Phase::PreVerifying,
            answers_through_acceptance(origin, before, Ok(())).push(Event::BestBlock(after)),
        ) == (Phase::Done, Some(Action::Finish(Ok(())))),
{
    reveal_with_fuel(run, 7);
    let a = answers_through_acceptance(origin, before, Ok(())).push(Event::BestBlock(after));
    assert(a.drop_first() =~= a.subrange(1, a.len() as int));
    assert(a.drop_first().drop_first() =~= a.subrange(2, a.len() as int));
    assert(a.drop_first().drop_first().drop_first() =~= a.subrange(3, a.len() as int));
    assert(a.drop_first().drop_first().drop_first().drop_first() =~= a.subrange(4, a.len() as int));
    assert(a.drop_first().drop_first().drop_first().drop_first().drop_first() =~= a.subrange(5, a.len() as int));
}

/// How far ahead of the current time, in seconds, a header's timestamp may be.
pub const MAX_FUTURE_BLOCK_TIME: u32 = 7200;

/// The outcome of the context-free checks on a header alone: its proof of work, as
/// the proof-of-work check found it, then its timestamp against `current_time`.
pub open spec fn header_outcome(header: BlockHeader, current_time: u32, proof_of_work_valid: bool) -> Result<(), Error> {
    if !proof_of_work_valid {
        Err(Error::Pow)
    } else if header.time as int > current_time as int + MAX_FUTURE_BLOCK_TIME as int {
        Err(Error::FuturisticTimestamp)
    } else {
        Ok(())
    }
}

/// Verifies blocks against the chain held by a store, and mempool transactions
/// against outputs that a caller supplies.
#[derive(Clone, Copy, Debug, PartialEq, Eq, Structural)]
pub struct BackwardsCompatibleChainVerifier {
    pub network: Magic,
}

/// One block verification in progress: the decisions between the store's answers.
#[derive(Clone, Copy, Debug, PartialEq, Eq, Structural)]
pub struct BlockVerification {
    pub network: Magic,
    pub limits: LimitsSnapshot,
    pub phase: Phase,
}

impl BackwardsCompatibleChainVerifier {
    pub fn new(network: Magic) -> (r: Self)
        ensures
            r.network == network,
    {
        BackwardsCompatibleChainVerifier { network }
    }

    /// Checks a header without its block and without the chain: a partial check, for
    /// header-first synchronisation, that never stands in for verifying the block.
    /// `proof_of_work_valid` is what the proof-of-work check found for this header.
    pub fn verify_block_header(
        &self,
        hash: &H256,
        header: &BlockHeader,
        current_time: u32,
        proof_of_work_valid: bool,
    ) -> (r: Result<(), Error>)
        ensures
            r == header_outcome(*header, current_time, proof_of_work_valid),
    {
        let header = IndexedBlockHeader::new(*hash, *header);
        if !proof_of_work_valid {
            Err(Error::Pow)
        } else if header.raw.time as u64 > current_time as u64 + MAX_FUTURE_BLOCK_TIME as u64 {
            Err(Error::FuturisticTimestamp)
        } else {
            Ok(())
        }
    }

    /// Starts the verification of one block. `current_time` is read once by the caller,
    /// so that every time-dependent rule sees the same instant. The first action
    /// touches no store.
    /// The ceilings of `limits` are read here, once, and every checker of this
    /// verification is handed that same snapshot.
    pub fn start_block_verification<L: ConsensusLimits>(
        &self,
        current_time: u32,
        limits: &L,
    ) -> (r: (BlockVerification, Action))
        ensures
            r.0.network == self.network,
            is_snapshot_of(r.0.limits, limits),
            r.0.phase == Phase::PreVerifying,
            r.1 == (Action::PreVerify { network: self.network, current_time, limits: r.0.limits }),
    {
        let limits = LimitsSnapshot::of(limits);
        (
            BlockVerification { network: self.network, limits, phase: Phase::PreVerifying },
            Action::PreVerify { network: self.network, current_time, limits },
        )
    }
}

impl BlockVerification {
    /// Whether `event` is an answer to the last action issued.
    pub fn expects(&self, event: &Event) -> (r: bool)
        ensures
            r == expects_spec(self.phase, *event),
    {
        match (self.phase, *event) {
            (Phase::PreVerifying, Event::Checked(_)) => true,
            (Phase::CheckingTip, Event::BestBlock(_)) => true,
            (Phase::Classifying, Event::Origin(_)) => true,
            (Phase::Forking { .. }, Event::Forked(_)) => true,
            (Phase::Accepting, Event::Checked(_)) => true,
            (Phase::RecheckingTip, Event::BestBlock(_)) => true,
            _ => false,
        }
    }

    /// Takes the answer to the last action and decides the next one.
    pub fn step(&mut self, event: Event) -> (r: Action)
        requires
            expects_spec(old(self).phase, event),
        ensures
            final(self).network == old(self).network,
            final(self).limits == old(self).limits,
            (final(self).phase, r) == transition(
                old(self).network,
                old(self).limits,
                old(self).phase,
                event,
            ),
    {
        let network = self.network;
        let limits = self.limits;
        let (phase, action) = match (self.phase, event) {
            (Phase::PreVerifying, Event::Checked(Err(e))) => (Phase::Done, Action::Finish(Err(e))),
            (Phase::PreVerifying, Event::Checked(Ok(()))) => (Phase::CheckingTip, Action::ReadBestBlock),
            (Phase::CheckingTip, Event::BestBlock(tip)) => if tip.is_consistent() {
                (Phase::Classifying, Action::ClassifyOrigin)
            } else {
                (Phase::Done, Action::Abort(Fatal::InconsistentBestBlock))
            },
            (Phase::Classifying, Event::Origin(Err(e))) => (Phase::Done, Action::Finish(Err(e))),
            (Phase::Classifying, Event::Origin(Ok(origin))) => match origin {
                BlockOrigin::KnownBlock => (Phase::Done, Action::Abort(Fatal::KnownBlock)),
                BlockOrigin::CanonChain { block_number } => (
                    Phase::Accepting,
                    Action::Accept { view: StoreView::Canon, network, block_number, limits },
                ),
                BlockOrigin::SideChain(o) => (
                    Phase::Forking { block_number: o.block_number },
                    Action::Fork(o),
                ),
                BlockOrigin::SideChainBecomingCanonChain(o) => (
                    Phase::Forking { block_number: o.block_number },
                    Action::Fork(o),
                ),
            },
            (Phase::Forking { .. }, Event::Forked(Err(e))) => (Phase::Done, Action::Finish(Err(e))),
            (Phase::Forking { block_number }, Event::Forked(Ok(()))) => (
                Phase::Accepting,
                Action::Accept { view: StoreView::Fork, network, block_number, limits },
            ),
            (Phase::Accepting, Event::Checked(Err(e))) => (Phase::Done, Action::Finish(Err(e))),
            (Phase::Accepting, Event::Checked(Ok(()))) => (Phase::RecheckingTip, Action::ReadBestBlock),
            (Phase::RecheckingTip, Event::BestBlock(tip)) => if tip.is_consistent() {
                (Phase::Done, Action::Finish(Ok(())))
            } else {
                (Phase::Done, Action::Abort(Fatal::InconsistentBestBlock))
            },
            _ => (self.phase, Action::Abort(Fatal::InconsistentBestBlock)),
        };
        self.phase = phase;
        action
    }
}

} // verus!
