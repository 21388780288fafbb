use vstd::prelude::*;
use crate::checker::{
    agrees_or_remote_absent, checked_l1_batch, checked_miniblock, diverged_l1_batch,
    spec_agrees_or_remote_absent, spec_checked_l1_batch, spec_checked_miniblock,
    spec_diverged_l1_batch,
};
use crate::error::{Error, RpcErrorKind, StorageError};
use crate::localizer::DivergenceSearch;
use crate::types::{H256, L1BatchNumber, MiniblockNumber};

verus! {

/// What the driver must do next on behalf of the detector. Local queries
/// go to the block store, remote queries to the main-node client.
#[derive(Clone, Copy, Debug, PartialEq, Eq, Structural)]
pub enum Query {
    /// Poll the store until some batch has metadata or the stop signal is
    /// raised; answer with `Event::FirstBatch`.
    WaitForFirstBatch,
    /// The greatest local batch number whose metadata (root hash) exists.
    LocalLastBatch,
    /// The greatest locally sealed miniblock number.
    LocalSealedBlock,
    /// The main node's sealed batch tip.
    RemoteSealedBatch,
    /// The main node's sealed miniblock tip.
    RemoteSealedBlock,
    /// The locally stored root hash of the given batch.
    LocalBatchRoot(L1BatchNumber),
    /// The main node's root hash of the given batch.
    RemoteBatchRoot(L1BatchNumber),
    /// The hash in the given local miniblock's header.
    LocalBlockHash(MiniblockNumber),
    /// The main node's hash of the given miniblock.
    RemoteBlockHash(MiniblockNumber),
    /// The smallest local batch number whose metadata exists.
    LocalEarliestBatch,
    /// Sleep one configured interval, then report whether the stop signal
    /// is raised.
    Sleep,
}

/// The answer the driver feeds back for the query it was asked to run.
/// `StorageFailed` answers any local query, `RpcFailed` any remote one.
#[derive(Clone, Copy, Debug)]
pub enum Event {
    /// `None` means the stop signal was raised while waiting.
    FirstBatch(Option<L1BatchNumber>),
    LocalLastBatch(Option<L1BatchNumber>),
    LocalSealedBlock(Option<MiniblockNumber>),
    RemoteSealedBatch(L1BatchNumber),
    RemoteSealedBlock(MiniblockNumber),
    LocalBatchRoot(Option<H256>),
    RemoteBatchRoot(Option<H256>),
    LocalBlockHash(Option<H256>),
    RemoteBlockHash(Option<H256>),
    LocalEarliestBatch(Option<L1BatchNumber>),
    Slept { stop: bool },
    StorageFailed,
    RpcFailed(RpcErrorKind),
}

/// A lifecycle notification for the event sink, attached to a transition.
#[derive(Clone, Copy, Debug, PartialEq, Eq, Structural)]
pub enum SinkEvent {
    /// The detector exists and has not checked anything yet.
    Initialized,
    /// A round found no divergence; the arguments are the checked
    /// miniblock and batch heights, both known correct.
    UpdateCorrectBlock(MiniblockNumber, L1BatchNumber),
    /// A round found divergence at the given batch; localization follows.
    ReportDivergence(L1BatchNumber),
    /// The run loop exited cleanly on the stop signal.
    StartShuttingDown,
}

/// The detector's state between two suspension points. Every non-terminal
/// state names, through `spec_query`, the one query whose answer drives
/// the next transition.
#[derive(Clone, Copy, Debug, PartialEq, Eq, Structural)]
pub enum DetectorState {
    /// Waiting for the local store to hold a first batch with metadata.
    Warmup,
    /// Re-verifying the earliest retained batch: reading its local root.
    EarliestLocalRoot { earliest: L1BatchNumber },
    /// Re-verifying the earliest retained batch: reading its remote root.
    EarliestRemoteRoot { earliest: L1BatchNumber, local_root: H256 },
    /// A consistency round, reading the local batch tip.
    RoundLocalBatch,
    /// A consistency round, reading the local miniblock tip.
    RoundLocalBlock { local_batch: L1BatchNumber },
    /// A consistency round, reading the remote batch tip.
    RoundRemoteBatch { local_batch: L1BatchNumber, local_block: MiniblockNumber },
    /// A consistency round, reading the remote miniblock tip.
    RoundRemoteBlock {
        local_batch: L1BatchNumber,
        local_block: MiniblockNumber,
        remote_batch: L1BatchNumber,
    },
    /// Comparing at the common minima: reading the local batch root.
    RoundLocalRoot { checked_batch: L1BatchNumber, checked_block: MiniblockNumber },
    /// Comparing at the common minima: reading the remote batch root.
    RoundRemoteRoot {
        checked_batch: L1BatchNumber,
        checked_block: MiniblockNumber,
        local_root: H256,
    },
    /// Comparing at the common minima: reading the local miniblock hash.
    RoundLocalBlockHash {
        checked_batch: L1BatchNumber,
        checked_block: MiniblockNumber,
        root_hashes_match: bool,
    },
    /// Comparing at the common minima: reading the remote miniblock hash.
    RoundRemoteBlockHash {
        checked_batch: L1BatchNumber,
        checked_block: MiniblockNumber,
        root_hashes_match: bool,
        local_hash: H256,
    },
    /// Divergence reported; reading the earliest batch to bound the search.
    FindEarliest { diverged: L1BatchNumber },
    /// Localizing: reading the local root at the probed batch.
    SearchLocalRoot { search: DivergenceSearch },
    /// Localizing: reading the remote root at the probed batch.
    SearchRemoteRoot { search: DivergenceSearch, local_root: H256 },
    /// A round found no divergence; sleeping before the next round.
    SleepSteady,
    /// A transient error; sleeping before restarting from `Warmup`.
    SleepRetry,
    /// Terminal: clean shutdown on the stop signal.
    Stopped,
    /// Terminal: a non-transient error ended the run.
    Failed(Error),
}

/// Where an error sends the machine: a transient one is slept over and the
/// run restarts from `Warmup`; any other ends the run.
pub open spec fn spec_fail(err: Error) -> (DetectorState, Option<SinkEvent>) {
    if err.spec_is_transient() {
        (DetectorState::SleepRetry, None)
    } else {
        (DetectorState::Failed(err), None)
    }
}

impl DetectorState {
    /// Search states only ever hold a bracket that can still narrow.
    pub open spec fn wf(self) -> bool {
        match self {
            DetectorState::SearchLocalRoot { search } => !search.spec_done(),
            DetectorState::SearchRemoteRoot { search, .. } => !search.spec_done(),
            _ => true,
        }
    }

    /// The query pending in each state; `None` only in terminal states.
    pub open spec fn spec_query(self) -> Option<Query> {
        match self {
            DetectorState::Warmup => Some(Query::WaitForFirstBatch),
            DetectorState::EarliestLocalRoot { earliest } => Some(Query::LocalBatchRoot(earliest)),
            DetectorState::EarliestRemoteRoot { earliest, .. } => Some(
                Query::RemoteBatchRoot(earliest),
            ),
            DetectorState::RoundLocalBatch => Some(Query::LocalLastBatch),
            DetectorState::RoundLocalBlock { .. } => Some(Query::LocalSealedBlock),
            DetectorState::RoundRemoteBatch { .. } => Some(Query::RemoteSealedBatch),
            DetectorState::RoundRemoteBlock { .. } => Some(Query::RemoteSealedBlock),
            DetectorState::RoundLocalRoot { checked_batch, .. } => Some(
                Query::LocalBatchRoot(checked_batch),
            ),
            DetectorState::RoundRemoteRoot { checked_batch, .. } => Some(
                Query::RemoteBatchRoot(checked_batch),
            ),
            DetectorState::RoundLocalBlockHash { checked_block, .. } => Some(
                Query::LocalBlockHash(checked_block),
            ),
            DetectorState::RoundRemoteBlockHash { checked_block, .. } => Some(
                Query::RemoteBlockHash(checked_block),
            ),
            DetectorState::FindEarliest { .. } => Some(Query::LocalEarliestBatch),
            DetectorState::SearchLocalRoot { search } => Some(
                Query::LocalBatchRoot(L1BatchNumber(search.spec_probe() as u32)),
            ),
            DetectorState::SearchRemoteRoot { search, .. } => Some(
                Query::RemoteBatchRoot(L1BatchNumber(search.spec_probe() as u32)),
            ),
            DetectorState::SleepSteady => Some(Query::Sleep),
            DetectorState::SleepRetry => Some(Query::Sleep),
            DetectorState::Stopped => None,
            DetectorState::Failed(_) => None,
        }
    }

    /// Which event variants answer the state's pending query.
    pub open spec fn accepts(self, event: Event) -> bool {
        match self {
            DetectorState::Warmup => event is FirstBatch || event is StorageFailed,
            DetectorState::EarliestLocalRoot { .. } => event is LocalBatchRoot
                || event is StorageFailed,
            DetectorState::EarliestRemoteRoot { .. } => event is RemoteBatchRoot
                || event is RpcFailed,
            DetectorState::RoundLocalBatch => event is LocalLastBatch || event is StorageFailed,
            DetectorState::RoundLocalBlock { .. } => event is LocalSealedBlock
                || event is StorageFailed,
            DetectorState::RoundRemoteBatch { .. } => event is RemoteSealedBatch
                || event is RpcFailed,
            DetectorState::RoundRemoteBlock { .. } => event is RemoteSealedBlock
                || event is RpcFailed,
            DetectorState::RoundLocalRoot { .. } => event is LocalBatchRoot
                || event is StorageFailed,
            DetectorState::RoundRemoteRoot { .. } => event is RemoteBatchRoot
                || event is RpcFailed,
            DetectorState::RoundLocalBlockHash { .. } => event is LocalBlockHash
                || event is StorageFailed,
            DetectorState::RoundRemoteBlockHash { .. } => event is RemoteBlockHash
                || event is RpcFailed,
            DetectorState::FindEarliest { .. } => event is LocalEarliestBatch
                || event is StorageFailed,
            DetectorState::SearchLocalRoot { .. } => event is LocalBatchRoot
                || event is StorageFailed,
            DetectorState::SearchRemoteRoot { .. } => event is RemoteBatchRoot
                || event is RpcFailed,
            DetectorState::SleepSteady => event is Slept,
            DetectorState::SleepRetry => event is Slept,
            DetectorState::Stopped => false,
            DetectorState::Failed(_) => false,
        }
    }

    /// The transition relation: the state after consuming `event` and the
    /// sink notification, if any, that the transition emits.
    pub open spec fn spec_step(self, event: Event) -> (DetectorState, Option<SinkEvent>) {
        match self {
            DetectorState::Warmup => match event {
                Event::FirstBatch(Some(earliest)) => (
                    DetectorState::EarliestLocalRoot { earliest },
                    None,
                ),
                Event::FirstBatch(None) => (
                    DetectorState::Stopped,
                    Some(SinkEvent::StartShuttingDown),
                ),
                Event::StorageFailed => (
                    DetectorState::Failed(Error::Storage(StorageError::Database)),
                    None,
                ),
                _ => (self, None),
            },
            DetectorState::EarliestLocalRoot { earliest } => match event {
                Event::LocalBatchRoot(Some(local_root)) => (
                    DetectorState::EarliestRemoteRoot { earliest, local_root },
                    None,
                ),
                Event::LocalBatchRoot(None) => (
                    DetectorState::Failed(
                        Error::Storage(StorageError::MissingL1BatchRootHash(earliest)),
                    ),
                    None,
                ),
                Event::StorageFailed => (
                    DetectorState::Failed(Error::Storage(StorageError::Database)),
                    None,
                ),
                _ => (self, None),
            },
            DetectorState::EarliestRemoteRoot { earliest, local_root } => match event {
                Event::RemoteBatchRoot(Some(remote_root)) => if remote_root == local_root {
                    (DetectorState::RoundLocalBatch, None)
                } else {
                    (DetectorState::Failed(Error::EarliestHashMismatch(earliest)), None)
                },
                Event::RemoteBatchRoot(None) => (
                    DetectorState::Failed(Error::EarliestL1BatchTruncated(earliest)),
                    None,
                ),
                Event::RpcFailed(kind) => spec_fail(Error::Rpc(kind)),
                _ => (self, None),
            },
            DetectorState::RoundLocalBatch => match event {
                Event::LocalLastBatch(Some(local_batch)) => (
                    DetectorState::RoundLocalBlock { local_batch },
                    None,
                ),
                Event::LocalLastBatch(None) => (DetectorState::SleepSteady, None),
                Event::StorageFailed => (
                    DetectorState::Failed(Error::Storage(StorageError::Database)),
                    None,
                ),
                _ => (self, None),
            },
            DetectorState::RoundLocalBlock { local_batch } => match event {
                Event::LocalSealedBlock(Some(local_block)) => (
                    DetectorState::RoundRemoteBatch { local_batch, local_block },
                    None,
                ),
                Event::LocalSealedBlock(None) => (DetectorState::SleepSteady, None),
                Event::StorageFailed => (
                    DetectorState::Failed(Error::Storage(StorageError::Database)),
                    None,
                ),
                _ => (self, None),
            },
            DetectorState::RoundRemoteBatch { local_batch, local_block } => match event {
                Event::RemoteSealedBatch(remote_batch) => (
                    DetectorState::RoundRemoteBlock { local_batch, local_block, remote_batch },
                    None,
                ),
                Event::RpcFailed(kind) => spec_fail(Error::Rpc(kind)),
                _ => (self, None),
            },
            DetectorState::RoundRemoteBlock { local_batch, local_block, remote_batch } => match event {
                Event::RemoteSealedBlock(remote_block) => (
                    DetectorState::RoundLocalRoot {
                        checked_batch: spec_checked_l1_batch(local_batch, remote_batch),
                        checked_block: spec_checked_miniblock(local_block, remote_block),
                    },
                    None,
                ),
                Event::RpcFailed(kind) => spec_fail(Error::Rpc(kind)),
                _ => (self, None),
            },
            DetectorState::RoundLocalRoot { checked_batch, checked_block } => match event {
                Event::LocalBatchRoot(Some(local_root)) => (
                    DetectorState::RoundRemoteRoot { checked_batch, checked_block, local_root },
                    None,
                ),
                Event::LocalBatchRoot(None) => (
                    DetectorState::Failed(
                        Error::Storage(StorageError::MissingL1BatchRootHash(checked_batch)),
                    ),
                    None,
                ),
                Event::StorageFailed => (
                    DetectorState::Failed(Error::Storage(StorageError::Database)),
                    None,
                ),
                _ => (self, None),
            },
            DetectorState::RoundRemoteRoot { checked_batch, checked_block, local_root } => match event {
                Event::RemoteBatchRoot(Some(remote_root)) => (
                    DetectorState::RoundLocalBlockHash {
                        checked_batch,
                        checked_block,
                        root_hashes_match: remote_root == local_root,
                    },
                    None,
                ),
                Event::RemoteBatchRoot(None) => spec_fail(Error::NoRemoteL1Batch),
                Event::RpcFailed(kind) => spec_fail(Error::Rpc(kind)),
                _ => (self, None),
            },
            DetectorState::RoundLocalBlockHash {
                checked_batch,
                checked_block,
                root_hashes_match,
            } => match event {
                Event::LocalBlockHash(Some(local_hash)) => (
                    DetectorState::RoundRemoteBlockHash {
                        checked_batch,
                        checked_block,
                        root_hashes_match,
                        local_hash,
                    },
                    None,
                ),
                Event::LocalBlockHash(None) => (
                    DetectorState::Failed(
                        Error::Storage(StorageError::MissingMiniblockHeader(checked_block)),
                    ),
                    None,
                ),
                Event::StorageFailed => (
                    DetectorState::Failed(Error::Storage(StorageError::Database)),
                    None,
                ),
                _ => (self, None),
            },
            DetectorState::RoundRemoteBlockHash {
                checked_batch,
                checked_block,
                root_hashes_match,
                local_hash,
            } => match event {
                Event::RemoteBlockHash(remote_hash) => {
                    let miniblock_hashes_match = spec_agrees_or_remote_absent(
                        local_hash,
                        remote_hash,
                    );
                    if root_hashes_match && miniblock_hashes_match {
                        (
                            DetectorState::SleepSteady,
                            Some(SinkEvent::UpdateCorrectBlock(checked_block, checked_batch)),
                        )
                    } else {
                        let diverged = spec_diverged_l1_batch(checked_batch, root_hashes_match);
                        (
                            DetectorState::FindEarliest { diverged },
                            Some(SinkEvent::ReportDivergence(diverged)),
                        )
                    }
                },
                Event::RpcFailed(kind) => spec_fail(Error::Rpc(kind)),
                _ => (self, None),
            },
            DetectorState::FindEarliest { diverged } => match event {
                Event::LocalEarliestBatch(Some(earliest)) => {
                    let search = DivergenceSearch { left: earliest.0, right: diverged.0 };
                    if search.spec_done() {
                        (
                            DetectorState::Failed(
                                Error::ReorgDetected(L1BatchNumber(search.left)),
                            ),
                            None,
                        )
                    } else {
                        (DetectorState::SearchLocalRoot { search }, None)
                    }
                },
                Event::LocalEarliestBatch(None) => (
                    DetectorState::Failed(
                        Error::Storage(StorageError::NoL1BatchesWithMetadata),
                    ),
                    None,
                ),
                Event::StorageFailed => (
                    DetectorState::Failed(Error::Storage(StorageError::Database)),
                    None,
                ),
                _ => (self, None),
            },
            DetectorState::SearchLocalRoot { search } => match event {
                Event::LocalBatchRoot(Some(local_root)) => (
                    DetectorState::SearchRemoteRoot { search, local_root },
                    None,
                ),
                Event::LocalBatchRoot(None) => (
                    DetectorState::Failed(
                        Error::Storage(
                            StorageError::MissingL1BatchRootHash(
                                L1BatchNumber(search.spec_probe() as u32),
                            ),
                        ),
                    ),
                    None,
                ),
                Event::StorageFailed => (
                    DetectorState::Failed(Error::Storage(StorageError::Database)),
                    None,
                ),
                _ => (self, None),
            },
            DetectorState::SearchRemoteRoot { search, local_root } => match event {
                Event::RemoteBatchRoot(remote_root) => {
                    let root_hashes_match = spec_agrees_or_remote_absent(local_root, remote_root);
                    let narrowed = search.spec_step(root_hashes_match);
                    if narrowed.spec_done() {
                        (
                            DetectorState::Failed(
                                Error::ReorgDetected(L1BatchNumber(narrowed.left)),
                            ),
                            None,
                        )
                    } else {
                        (DetectorState::SearchLocalRoot { search: narrowed }, None)
                    }
                },
                Event::RpcFailed(kind) => spec_fail(Error::Rpc(kind)),
                _ => (self, None),
            },
            DetectorState::SleepSteady => match event {
                Event::Slept { stop } => if stop {
                    (DetectorState::Stopped, Some(SinkEvent::StartShuttingDown))
                } else {
                    (DetectorState::RoundLocalBatch, None)
                },
                _ => (self, None),
            },
            DetectorState::SleepRetry => match event {
                Event::Slept { stop } => if stop {
                    (DetectorState::Stopped, Some(SinkEvent::StartShuttingDown))
                } else {
                    (DetectorState::Warmup, None)
                },
                _ => (self, None),
            },
            DetectorState::Stopped => (self, None),
            DetectorState::Failed(_) => (self, None),
        }
    }

    /// A fresh detector: the machine waits for the first batch with
    /// metadata, and the accompanying sink event announces initialization.
    pub fn start() -> (fresh: (DetectorState, SinkEvent))
        ensures
            fresh.0 == DetectorState::Warmup,
            fresh.0.wf(),
            fresh.1 == SinkEvent::Initialized,
    {
        (DetectorState::Warmup, SinkEvent::Initialized)
    }

    /// The query the driver must run next; `None` once the run is over.
    pub fn query(&self) -> (query: Option<Query>)
        requires
            self.wf(),
        ensures
            query == self.spec_query(),
    {
        match *self {
            DetectorState::Warmup => Some(Query::WaitForFirstBatch),
            DetectorState::EarliestLocalRoot { earliest } => Some(Query::LocalBatchRoot(earliest)),
            DetectorState::EarliestRemoteRoot { earliest, .. } => Some(
                Query::RemoteBatchRoot(earliest),
            ),
            DetectorState::RoundLocalBatch => Some(Query::LocalLastBatch),
            DetectorState::RoundLocalBlock { .. } => Some(Query::LocalSealedBlock),
            DetectorState::RoundRemoteBatch { .. } => Some(Query::RemoteSealedBatch),
            DetectorState::RoundRemoteBlock { .. } => Some(Query::RemoteSealedBlock),
            DetectorState::RoundLocalRoot { checked_batch, .. } => Some(
                Query::LocalBatchRoot(checked_batch),
            ),
            DetectorState::RoundRemoteRoot { checked_batch, .. } => Some(
                Query::RemoteBatchRoot(checked_batch),
            ),
            DetectorState::RoundLocalBlockHash { checked_block, .. } => Some(
                Query::LocalBlockHash(checked_block),
            ),
            DetectorState::RoundRemoteBlockHash { checked_block, .. } => Some(
                Query::RemoteBlockHash(checked_block),
            ),
            DetectorState::FindEarliest { .. } => Some(Query::LocalEarliestBatch),
            DetectorState::SearchLocalRoot { search } => Some(
                Query::LocalBatchRoot(L1BatchNumber(search.probe())),
            ),
            DetectorState::SearchRemoteRoot { search, .. } => Some(
                Query::RemoteBatchRoot(L1BatchNumber(search.probe())),
            ),
            DetectorState::SleepSteady => Some(Query::Sleep),
            DetectorState::SleepRetry => Some(Query::Sleep),
            DetectorState::Stopped => None,
            DetectorState::Failed(_) => None,
        }
    }

    /// The run's result once a terminal state is reached: `Ok` after a
    /// clean shutdown, the terminal error otherwise; `None` while running.
    pub open spec fn spec_outcome(self) -> Option<Result<(), Error>> {
        match self {
            DetectorState::Stopped => Some(Ok(())),
            DetectorState::Failed(err) => Some(Err(err)),
            _ => None,
        }
    }

    pub fn outcome(&self) -> (outcome: Option<Result<(), Error>>)
        ensures
            outcome == self.spec_outcome(),
    {
        match *self {
            DetectorState::Stopped => Some(Ok(())),
            DetectorState::Failed(err) => Some(Err(err)),
            _ => None,
        }
    }

    /// Consume the answer to the pending query and move to the next state,
    /// returning the sink notification the transition emits, if any.
    pub fn step(&mut self, event: Event) -> (emitted: Option<SinkEvent>)
        requires
            old(self).wf(),
            old(self).accepts(event),
        ensures
            *final(self) == old(self).spec_step(event).0,
            emitted == old(self).spec_step(event).1,
            final(self).wf(),
    {
        let current = *self;
        match current {
            DetectorState::Warmup => match event {
                Event::FirstBatch(Some(earliest)) => {
                    *self = DetectorState::EarliestLocalRoot { earliest };
                    None
                },
                Event::FirstBatch(None) => {
                    *self = DetectorState::Stopped;
                    Some(SinkEvent::StartShuttingDown)
                },
                Event::StorageFailed => {
                    *self = DetectorState::Failed(Error::Storage(StorageError::Database));
                    None
                },
                _ => None,
            },
            DetectorState::EarliestLocalRoot { earliest } => match event {
                Event::LocalBatchRoot(Some(local_root)) => {
                    *self = DetectorState::EarliestRemoteRoot { earliest, local_root };
                    None
                },
                Event::LocalBatchRoot(None) => {
                    *self = DetectorState::Failed(
                        Error::Storage(StorageError::MissingL1BatchRootHash(earliest)),
                    );
                    None
                },
                Event::StorageFailed => {
                    *self = DetectorState::Failed(Error::Storage(StorageError::Database));
                    None
                },
                _ => None,
            },
            DetectorState::EarliestRemoteRoot { earliest, local_root } => match event {
                Event::RemoteBatchRoot(Some(remote_root)) => {
                    if remote_root == local_root {
                        *self = DetectorState::RoundLocalBatch;
                    } else {
                        *self = DetectorState::Failed(Error::EarliestHashMismatch(earliest));
                    }
                    None
                },
                Event::RemoteBatchRoot(None) => {
                    *self = DetectorState::Failed(Error::EarliestL1BatchTruncated(earliest));
                    None
                },
                Event::RpcFailed(kind) => self.fail(Error::Rpc(kind)),
                _ => None,
            },
            DetectorState::RoundLocalBatch => match event {
                Event::LocalLastBatch(Some(local_batch)) => {
                    *self = DetectorState::RoundLocalBlock { local_batch };
                    None
                },
                Event::LocalLastBatch(None) => {
                    *self = DetectorState::SleepSteady;
                    None
                },
                Event::StorageFailed => {
                    *self = DetectorState::Failed(Error::Storage(StorageError::Database));
                    None
                },
                _ => None,
            },
            DetectorState::RoundLocalBlock { local_batch } => match event {
                Event::LocalSealedBlock(Some(local_block)) => {
                    *self = DetectorState::RoundRemoteBatch { local_batch, local_block };
                    None
                },
                Event::LocalSealedBlock(None) => {
                    *self = DetectorState::SleepSteady;
                    None
                },
                Event::StorageFailed => {
                    *self = DetectorState::Failed(Error::Storage(StorageError::Database));
                    None
                },
                _ => None,
            },
            DetectorState::RoundRemoteBatch { local_batch, local_block } => match event {
                Event::RemoteSealedBatch(remote_batch) => {
                    *self = DetectorState::RoundRemoteBlock {
                        local_batch,
                        local_block,
                        remote_batch,
                    };
                    None
                },
                Event::RpcFailed(kind) => self.fail(Error::Rpc(kind)),
                _ => None,
            },
            DetectorState::RoundRemoteBlock { local_batch, local_block, remote_batch } => match event {
                Event::RemoteSealedBlock(remote_block) => {
                    *self = DetectorState::RoundLocalRoot {
                        checked_batch: checked_l1_batch(local_batch, remote_batch),
                        checked_block: checked_miniblock(local_block, remote_block),
                    };
                    None
                },
                Event::RpcFailed(kind) => self.fail(Error::Rpc(kind)),
                _ => None,
            },
            DetectorState::RoundLocalRoot { checked_batch, checked_block } => match event {
                Event::LocalBatchRoot(Some(local_root)) => {
                    *self = DetectorState::RoundRemoteRoot {
                        checked_batch,
                        checked_block,
                        local_root,
                    };
                    None
                },
                Event::LocalBatchRoot(None) => {
                    *self = DetectorState::Failed(
                        Error::Storage(StorageError::MissingL1BatchRootHash(checked_batch)),
                    );
                    None
                },
                Event::StorageFailed => {
                    *self = DetectorState::Failed(Error::Storage(StorageError::Database));
                    None
                },
                _ => None,
            },
            DetectorState::RoundRemoteRoot { checked_batch, checked_block, local_root } => match event {
                Event::RemoteBatchRoot(Some(remote_root)) => {
                    *self = DetectorState::RoundLocalBlockHash {
                        checked_batch,
                        checked_block,
                        root_hashes_match: remote_root == local_root,
                    };
                    None
                },
                Event::RemoteBatchRoot(None) => self.fail(Error::NoRemoteL1Batch),
                Event::RpcFailed(kind) => self.fail(Error::Rpc(kind)),
                _ => None,
            },
            DetectorState::RoundLocalBlockHash {
                checked_batch,
                checked_block,
                root_hashes_match,
            } => match event {
                Event::LocalBlockHash(Some(local_hash)) => {
                    *self = DetectorState::RoundRemoteBlockHash {
                        checked_batch,
                        checked_block,
                        root_hashes_match,
                        local_hash,
                    };
                    None
                },
                Event::LocalBlockHash(None) => {
                    *self = DetectorState::Failed(
                        Error::Storage(StorageError::MissingMiniblockHeader(checked_block)),
                    );
                    None
                },
                Event::StorageFailed => {
                    *self = DetectorState::Failed(Error::Storage(StorageError::Database));
                    None
                },
                _ => None,
            },
            DetectorState::RoundRemoteBlockHash {
                checked_batch,
                checked_block,
                root_hashes_match,
                local_hash,
            } => match event {
                Event::RemoteBlockHash(remote_hash) => {
                    let miniblock_hashes_match = agrees_or_remote_absent(
                        &local_hash,
                        &remote_hash,
                    );
                    if root_hashes_match && miniblock_hashes_match {
                        *self = DetectorState::SleepSteady;
                        Some(SinkEvent::UpdateCorrectBlock(checked_block, checked_batch))
                    } else {
                        let diverged = diverged_l1_batch(checked_batch, root_hashes_match);
                        *self = DetectorState::FindEarliest { diverged };
                        Some(SinkEvent::ReportDivergence(diverged))
                    }
                },
                Event::RpcFailed(kind) => self.fail(Error::Rpc(kind)),
                _ => None,
            },
            DetectorState::FindEarliest { diverged } => match event {
                Event::LocalEarliestBatch(Some(earliest)) => {
                    let search = DivergenceSearch::new(earliest.0, diverged.0);
                    if search.is_done() {
                        *self = DetectorState::Failed(
                            Error::ReorgDetected(L1BatchNumber(search.result())),
                        );
                    } else {
                        *self = DetectorState::SearchLocalRoot { search };
                    }
                    None
                },
                Event::LocalEarliestBatch(None) => {
                    *self = DetectorState::Failed(
                        Error::Storage(StorageError::NoL1BatchesWithMetadata),
                    );
                    None
                },
                Event::StorageFailed => {
                    *self = DetectorState::Failed(Error::Storage(StorageError::Database));
                    None
                },
                _ => None,
            },
            DetectorState::SearchLocalRoot { search } => match event {
                Event::LocalBatchRoot(Some(local_root)) => {
                    *self = DetectorState::SearchRemoteRoot { search, local_root };
                    None
                },
                Event::LocalBatchRoot(None) => {
                    *self = DetectorState::Failed(
                        Error::Storage(
                            StorageError::MissingL1BatchRootHash(L1BatchNumber(search.probe())),
                        ),
                    );
                    None
                },
                Event::StorageFailed => {
                    *self = DetectorState::Failed(Error::Storage(StorageError::Database));
                    None
                },
                _ => None,
            },
            DetectorState::SearchRemoteRoot { search, local_root } => match event {
                Event::RemoteBatchRoot(remote_root) => {
                    let root_hashes_match = agrees_or_remote_absent(&local_root, &remote_root);
                    let mut narrowed = search;
                    narrowed.step(root_hashes_match);
                    if narrowed.is_done() {
                        *self = DetectorState::Failed(
                            Error::ReorgDetected(L1BatchNumber(narrowed.result())),
                        );
                    } else {
                        *self = DetectorState::SearchLocalRoot { search: narrowed };
                    }
                    None
                },
                Event::RpcFailed(kind) => self.fail(Error::Rpc(kind)),
                _ => None,
            },
            DetectorState::SleepSteady => match event {
                Event::Slept { stop } => {
                    if stop {
                        *self = DetectorState::Stopped;
                        Some(SinkEvent::StartShuttingDown)
                    } else {
                        *self = DetectorState::RoundLocalBatch;
                        None
                    }
                },
                _ => None,
            },
            DetectorState::SleepRetry => match event {
                Event::Slept { stop } => {
                    if stop {
                        *self = DetectorState::Stopped;
                        Some(SinkEvent::StartShuttingDown)
                    } else {
                        *self = DetectorState::Warmup;
                        None
                    }
                },
                _ => None,
            },
            DetectorState::Stopped => None,
            DetectorState::Failed(_) => None,
        }
    }

    /// Route an error: sleep and retry from warmup if it is transient,
    /// end the run otherwise.
    fn fail(&mut self, err: Error) -> (emitted: Option<SinkEvent>)
        ensures
            *final(self) == spec_fail(err).0,
            emitted == spec_fail(err).1,
            final(self).wf(),
    {
        if err.is_transient() {
            *self = DetectorState::SleepRetry;
        } else {
            *self = DetectorState::Failed(err);
        }
        None
    }
}

} // verus!
