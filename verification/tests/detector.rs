use reorg_detector::checker::{
    agrees_or_remote_absent, checked_l1_batch, checked_miniblock, diverged_l1_batch,
    l1_batch_number_from_u64, miniblock_number_from_u64,
};
use reorg_detector::detector::{DetectorState, Event, Query, SinkEvent};
use reorg_detector::error::{Error, RpcErrorKind, StorageError};
use reorg_detector::health::{health_for_event, Health, HealthDetails, HealthStatus};
use reorg_detector::localizer::DivergenceSearch;
use reorg_detector::types::{H256, L1BatchNumber, MiniblockNumber};

fn h(tag: u64) -> H256 {
    H256(tag, 0, 0, 0)
}

fn lookup(table: &[(u32, H256)], number: u32) -> Option<H256> {
    let mut i: usize = 0;
    while i < table.len() {
        if table[i].0 == number {
            return Some(table[i].1);
        }
        i += 1;
    }
    None
}

/// An in-memory stand-in for the block store, the main-node client, the
/// sleep timer and the stop signal, answering the machine's queries.
struct Backend {
    local_last_batch: Option<u32>,
    local_sealed_block: Option<u32>,
    local_earliest_batch: Option<u32>,
    local_batch_roots: Vec<(u32, H256)>,
    local_block_hashes: Vec<(u32, H256)>,
    remote_sealed_batch: u32,
    remote_sealed_block: u32,
    remote_batch_roots: Vec<(u32, H256)>,
    remote_block_hashes: Vec<(u32, H256)>,
    /// While positive, each remote query fails with a transport error.
    remote_failures_left: u32,
    /// The sleep after which the stop signal reads as raised.
    stop_after_sleeps: u32,
    sleeps: u32,
}

fn empty_backend() -> Backend {
    Backend {
        local_last_batch: None,
        local_sealed_block: None,
        local_earliest_batch: None,
        local_batch_roots: Vec::new(),
        local_block_hashes: Vec::new(),
        remote_sealed_batch: 0,
        remote_sealed_block: 0,
        remote_batch_roots: Vec::new(),
        remote_block_hashes: Vec::new(),
        remote_failures_left: 0,
        stop_after_sleeps: 0,
        sleeps: 0,
    }
}

/// Local batches `1..=batches` with roots `h(100 + i)` and blocks
/// `1..=blocks` with hashes `h(i)`; the remote side identical.
fn chain_backend(batches: u32, blocks: u32) -> Backend {
    let mut backend = empty_backend();
    backend.local_last_batch = Some(batches);
    backend.local_sealed_block = Some(blocks);
    backend.local_earliest_batch = Some(1);
    let mut i: u32 = 1;
    while i <= batches {
        backend.local_batch_roots.push((i, h(100 + i as u64)));
        backend.remote_batch_roots.push((i, h(100 + i as u64)));
        i += 1;
    }
    let mut j: u32 = 1;
    while j <= blocks {
        backend.local_block_hashes.push((j, h(j as u64)));
        backend.remote_block_hashes.push((j, h(j as u64)));
        j += 1;
    }
    backend.remote_sealed_batch = batches;
    backend.remote_sealed_block = blocks;
    backend
}

impl Backend {
    fn remote_guard(&mut self, answer: Event) -> Event {
        if self.remote_failures_left > 0 {
            self.remote_failures_left -= 1;
            Event::RpcFailed(RpcErrorKind::Transport)
        } else {
            answer
        }
    }

    fn answer(&mut self, query: Query) -> Event {
        match query {
            Query::WaitForFirstBatch => match self.local_earliest_batch {
                Some(batch) => Event::FirstBatch(Some(L1BatchNumber(batch))),
                None => Event::FirstBatch(None),
            },
            Query::LocalLastBatch => {
                Event::LocalLastBatch(self.local_last_batch.map(L1BatchNumber))
            }
            Query::LocalSealedBlock => {
                Event::LocalSealedBlock(self.local_sealed_block.map(MiniblockNumber))
            }
            Query::RemoteSealedBatch => {
                let tip = self.remote_sealed_batch;
                self.remote_guard(Event::RemoteSealedBatch(L1BatchNumber(tip)))
            }
            Query::RemoteSealedBlock => {
                let tip = self.remote_sealed_block;
                self.remote_guard(Event::RemoteSealedBlock(MiniblockNumber(tip)))
            }
            Query::LocalBatchRoot(n) => {
                Event::LocalBatchRoot(lookup(&self.local_batch_roots, n.0))
            }
            Query::RemoteBatchRoot(n) => {
                let root = lookup(&self.remote_batch_roots, n.0);
                self.remote_guard(Event::RemoteBatchRoot(root))
            }
            Query::LocalBlockHash(n) => {
                Event::LocalBlockHash(lookup(&self.local_block_hashes, n.0))
            }
            Query::RemoteBlockHash(n) => {
                let hash = lookup(&self.remote_block_hashes, n.0);
                self.remote_guard(Event::RemoteBlockHash(hash))
            }
            Query::LocalEarliestBatch => {
                Event::LocalEarliestBatch(self.local_earliest_batch.map(L1BatchNumber))
            }
            Query::Sleep => {
                self.sleeps += 1;
                Event::Slept { stop: self.sleeps > self.stop_after_sleeps }
            }
        }
    }
}

fn drive(
    mut state: DetectorState,
    backend: &mut Backend,
    emitted: &mut Vec<SinkEvent>,
    max_steps: u32,
) -> DetectorState {
    let mut steps: u32 = 0;
    while state.outcome().is_none() && steps < max_steps {
        let query = match state.query() {
            Some(query) => query,
            None => break,
        };
        let event = backend.answer(query);
        if let Some(notice) = state.step(event) {
            emitted.push(notice);
        }
        steps += 1;
    }
    state
}

#[test]
fn no_reorg_steady_state() {
    let mut backend = chain_backend(10, 30);
    let (state, first) = DetectorState::start();
    let mut emitted: Vec<SinkEvent> = vec![first];
    let final_state = drive(state, &mut backend, &mut emitted, 200);
    assert_eq!(final_state.outcome(), Some(Ok(())));
    assert_eq!(
        emitted,
        vec![
            SinkEvent::Initialized,
            SinkEvent::UpdateCorrectBlock(MiniblockNumber(30), L1BatchNumber(10)),
            SinkEvent::StartShuttingDown,
        ]
    );
}

#[test]
fn local_ahead_of_remote() {
    let mut backend = chain_backend(10, 30);
    backend.remote_sealed_batch = 7;
    backend.remote_sealed_block = 21;
    let (state, first) = DetectorState::start();
    let mut emitted: Vec<SinkEvent> = vec![first];
    let final_state = drive(state, &mut backend, &mut emitted, 200);
    assert_eq!(final_state.outcome(), Some(Ok(())));
    assert_eq!(
        emitted,
        vec![
            SinkEvent::Initialized,
            SinkEvent::UpdateCorrectBlock(MiniblockNumber(21), L1BatchNumber(7)),
            SinkEvent::StartShuttingDown,
        ]
    );
}

#[test]
fn local_ahead_of_remote_block_only() {
    let mut backend = chain_backend(10, 30);
    backend.remote_sealed_block = 18;
    let (state, first) = DetectorState::start();
    let mut emitted: Vec<SinkEvent> = vec![first];
    let final_state = drive(state, &mut backend, &mut emitted, 200);
    assert_eq!(final_state.outcome(), Some(Ok(())));
    assert_eq!(
        emitted,
        vec![
            SinkEvent::Initialized,
            SinkEvent::UpdateCorrectBlock(MiniblockNumber(18), L1BatchNumber(10)),
            SinkEvent::StartShuttingDown,
        ]
    );
}

#[test]
fn reorg_at_batch_8() {
    // The main node rolled back and re-sealed from batch 8; the round
    // catches it with the remote tips at batch 8 and block 24.
    let mut backend = chain_backend(10, 30);
    let mut i: u32 = 8;
    while i <= 10 {
        backend.remote_batch_roots[(i - 1) as usize] = (i, h(200 + i as u64));
        i += 1;
    }
    let mut j: u32 = 22;
    while j <= 30 {
        backend.remote_block_hashes[(j - 1) as usize] = (j, h(300 + j as u64));
        j += 1;
    }
    backend.remote_sealed_batch = 8;
    backend.remote_sealed_block = 24;
    let (state, first) = DetectorState::start();
    let mut emitted: Vec<SinkEvent> = vec![first];
    let final_state = drive(state, &mut backend, &mut emitted, 200);
    assert_eq!(
        final_state.outcome(),
        Some(Err(Error::ReorgDetected(L1BatchNumber(7))))
    );
    assert_eq!(
        emitted,
        vec![
            SinkEvent::Initialized,
            SinkEvent::ReportDivergence(L1BatchNumber(8)),
        ]
    );
}

#[test]
fn reorg_localized_from_diverged_tip() {
    // Same reorg, but the round only catches it once both sides have
    // sealed through batch 10: divergence is reported at the checked tip
    // and the search still localizes the boundary at batch 7.
    let mut backend = chain_backend(10, 30);
    let mut i: u32 = 8;
    while i <= 10 {
        backend.remote_batch_roots[(i - 1) as usize] = (i, h(200 + i as u64));
        i += 1;
    }
    let mut j: u32 = 22;
    while j <= 30 {
        backend.remote_block_hashes[(j - 1) as usize] = (j, h(300 + j as u64));
        j += 1;
    }
    let (state, first) = DetectorState::start();
    let mut emitted: Vec<SinkEvent> = vec![first];
    let final_state = drive(state, &mut backend, &mut emitted, 200);
    assert_eq!(
        final_state.outcome(),
        Some(Err(Error::ReorgDetected(L1BatchNumber(7))))
    );
    assert_eq!(
        emitted,
        vec![
            SinkEvent::Initialized,
            SinkEvent::ReportDivergence(L1BatchNumber(10)),
        ]
    );
}

#[test]
fn earliest_mismatch() {
    let mut backend = empty_backend();
    backend.local_earliest_batch = Some(5);
    backend.local_batch_roots = vec![(5, h(901))];
    backend.remote_batch_roots = vec![(5, h(902))];
    let (state, first) = DetectorState::start();
    let mut emitted: Vec<SinkEvent> = vec![first];
    let final_state = drive(state, &mut backend, &mut emitted, 200);
    assert_eq!(
        final_state.outcome(),
        Some(Err(Error::EarliestHashMismatch(L1BatchNumber(5))))
    );
    assert_eq!(emitted, vec![SinkEvent::Initialized]);
}

#[test]
fn earliest_truncated_remotely() {
    let mut backend = empty_backend();
    backend.local_earliest_batch = Some(5);
    backend.local_batch_roots = vec![(5, h(901))];
    let (state, first) = DetectorState::start();
    let mut emitted: Vec<SinkEvent> = vec![first];
    let final_state = drive(state, &mut backend, &mut emitted, 200);
    assert_eq!(
        final_state.outcome(),
        Some(Err(Error::EarliestL1BatchTruncated(L1BatchNumber(5))))
    );
    assert_eq!(emitted, vec![SinkEvent::Initialized]);
}

#[test]
fn transient_rpc_then_recovery() {
    let mut backend = chain_backend(10, 30);
    backend.remote_failures_left = 1;
    backend.stop_after_sleeps = 1;
    let mut emitted: Vec<SinkEvent> = Vec::new();
    let final_state = drive(DetectorState::RoundLocalBatch, &mut backend, &mut emitted, 200);
    assert_eq!(final_state.outcome(), Some(Ok(())));
    assert_eq!(
        emitted,
        vec![
            SinkEvent::UpdateCorrectBlock(MiniblockNumber(30), L1BatchNumber(10)),
            SinkEvent::StartShuttingDown,
        ]
    );
}

#[test]
fn empty_store_round_is_success() {
    let mut backend = empty_backend();
    let mut emitted: Vec<SinkEvent> = Vec::new();
    let final_state = drive(DetectorState::RoundLocalBatch, &mut backend, &mut emitted, 50);
    assert_eq!(final_state.outcome(), Some(Ok(())));
    assert_eq!(emitted, vec![SinkEvent::StartShuttingDown]);
}

#[test]
fn no_sealed_block_round_is_success() {
    let mut backend = empty_backend();
    backend.local_last_batch = Some(3);
    let mut emitted: Vec<SinkEvent> = Vec::new();
    let final_state = drive(DetectorState::RoundLocalBatch, &mut backend, &mut emitted, 50);
    assert_eq!(final_state.outcome(), Some(Ok(())));
    assert_eq!(emitted, vec![SinkEvent::StartShuttingDown]);
}

#[test]
fn remote_ahead_with_batch_mismatch() {
    // The remote is ahead on both heights, but the common batch already
    // disagrees: divergence at the checked batch itself.
    let mut backend = chain_backend(5, 15);
    backend.remote_sealed_batch = 9;
    backend.remote_sealed_block = 40;
    backend.remote_batch_roots[4] = (5, h(205));
    let mut emitted: Vec<SinkEvent> = Vec::new();
    let final_state = drive(DetectorState::RoundLocalBatch, &mut backend, &mut emitted, 200);
    assert_eq!(
        final_state.outcome(),
        Some(Err(Error::ReorgDetected(L1BatchNumber(4))))
    );
    assert_eq!(emitted, vec![SinkEvent::ReportDivergence(L1BatchNumber(5))]);
}

#[test]
fn block_match_with_batch_mismatch() {
    // Equal heights, miniblock hashes agree, batch roots do not:
    // divergence at the checked batch (offset zero).
    let mut backend = chain_backend(5, 15);
    backend.remote_batch_roots[4] = (5, h(205));
    let mut emitted: Vec<SinkEvent> = Vec::new();
    let final_state = drive(DetectorState::RoundLocalBatch, &mut backend, &mut emitted, 200);
    assert_eq!(
        final_state.outcome(),
        Some(Err(Error::ReorgDetected(L1BatchNumber(4))))
    );
    assert_eq!(emitted, vec![SinkEvent::ReportDivergence(L1BatchNumber(5))]);
}

#[test]
fn batch_match_with_block_mismatch() {
    // Batch roots agree at the common height but the miniblock hashes do
    // not: the first diverging batch cannot be the checked one, so the
    // report points one past it.
    let mut backend = chain_backend(5, 15);
    backend.remote_block_hashes[14] = (15, h(315));
    let mut emitted: Vec<SinkEvent> = Vec::new();
    let final_state = drive(DetectorState::RoundLocalBatch, &mut backend, &mut emitted, 200);
    assert_eq!(
        final_state.outcome(),
        Some(Err(Error::ReorgDetected(L1BatchNumber(5))))
    );
    assert_eq!(emitted, vec![SinkEvent::ReportDivergence(L1BatchNumber(6))]);
}

#[test]
fn repeated_rounds_same_outcome() {
    // Three rounds against unchanged backend state report the same
    // progress three times; and a second full run over a fresh but equal
    // backend repeats the first run exactly.
    let mut backend = chain_backend(10, 30);
    backend.stop_after_sleeps = 2;
    let mut emitted: Vec<SinkEvent> = Vec::new();
    let final_state = drive(DetectorState::RoundLocalBatch, &mut backend, &mut emitted, 200);
    assert_eq!(final_state.outcome(), Some(Ok(())));
    let progress = SinkEvent::UpdateCorrectBlock(MiniblockNumber(30), L1BatchNumber(10));
    assert_eq!(
        emitted,
        vec![progress, progress, progress, SinkEvent::StartShuttingDown]
    );

    let mut backend_again = chain_backend(10, 30);
    backend_again.stop_after_sleeps = 2;
    let mut emitted_again: Vec<SinkEvent> = Vec::new();
    let final_again = drive(
        DetectorState::RoundLocalBatch,
        &mut backend_again,
        &mut emitted_again,
        200,
    );
    assert_eq!(final_again.outcome(), final_state.outcome());
    assert_eq!(emitted_again, emitted);
}

#[test]
fn transient_classification() {
    assert!(Error::NoRemoteL1Batch.is_transient());
    assert!(Error::Rpc(RpcErrorKind::Transport).is_transient());
    assert!(Error::Rpc(RpcErrorKind::RequestTimeout).is_transient());
    assert!(!Error::Rpc(RpcErrorKind::Other).is_transient());
    assert!(!Error::EarliestHashMismatch(L1BatchNumber(5)).is_transient());
    assert!(!Error::EarliestL1BatchTruncated(L1BatchNumber(5)).is_transient());
    assert!(!Error::ReorgDetected(L1BatchNumber(1)).is_transient());
    assert!(!Error::Storage(StorageError::Database).is_transient());
}

#[test]
fn non_transient_rpc_is_terminal() {
    let mut state = DetectorState::RoundRemoteBatch {
        local_batch: L1BatchNumber(3),
        local_block: MiniblockNumber(7),
    };
    let notice = state.step(Event::RpcFailed(RpcErrorKind::Other));
    assert!(notice.is_none());
    assert_eq!(
        state.outcome(),
        Some(Err(Error::Rpc(RpcErrorKind::Other)))
    );
}

#[test]
fn storage_failure_is_terminal() {
    let mut state = DetectorState::RoundLocalBatch;
    let notice = state.step(Event::StorageFailed);
    assert!(notice.is_none());
    assert_eq!(
        state.outcome(),
        Some(Err(Error::Storage(StorageError::Database)))
    );
}

#[test]
fn missing_local_root_is_storage_error() {
    let mut state = DetectorState::RoundLocalRoot {
        checked_batch: L1BatchNumber(4),
        checked_block: MiniblockNumber(9),
    };
    state.step(Event::LocalBatchRoot(None));
    assert_eq!(
        state.outcome(),
        Some(Err(Error::Storage(StorageError::MissingL1BatchRootHash(
            L1BatchNumber(4)
        ))))
    );
}

#[test]
fn missing_local_header_is_storage_error() {
    let mut state = DetectorState::RoundLocalBlockHash {
        checked_batch: L1BatchNumber(4),
        checked_block: MiniblockNumber(9),
        root_hashes_match: true,
    };
    state.step(Event::LocalBlockHash(None));
    assert_eq!(
        state.outcome(),
        Some(Err(Error::Storage(StorageError::MissingMiniblockHeader(
            MiniblockNumber(9)
        ))))
    );
}

#[test]
fn vanished_batches_are_storage_error() {
    let mut state = DetectorState::FindEarliest { diverged: L1BatchNumber(6) };
    state.step(Event::LocalEarliestBatch(None));
    assert_eq!(
        state.outcome(),
        Some(Err(Error::Storage(StorageError::NoL1BatchesWithMetadata)))
    );
}

#[test]
fn missing_remote_root_retries_from_warmup() {
    let mut state = DetectorState::RoundRemoteRoot {
        checked_batch: L1BatchNumber(4),
        checked_block: MiniblockNumber(9),
        local_root: h(1),
    };
    let notice = state.step(Event::RemoteBatchRoot(None));
    assert!(notice.is_none());
    assert_eq!(state.query(), Some(Query::Sleep));
    let notice_after_sleep = state.step(Event::Slept { stop: false });
    assert!(notice_after_sleep.is_none());
    assert_eq!(state.query(), Some(Query::WaitForFirstBatch));
}

#[test]
fn checked_heights_are_minima() {
    assert_eq!(
        checked_l1_batch(L1BatchNumber(10), L1BatchNumber(7)),
        L1BatchNumber(7)
    );
    assert_eq!(
        checked_l1_batch(L1BatchNumber(3), L1BatchNumber(8)),
        L1BatchNumber(3)
    );
    assert_eq!(
        checked_miniblock(MiniblockNumber(30), MiniblockNumber(21)),
        MiniblockNumber(21)
    );
    assert_eq!(
        checked_miniblock(MiniblockNumber(5), MiniblockNumber(5)),
        MiniblockNumber(5)
    );
}

#[test]
fn diverged_batch_offset() {
    assert_eq!(
        diverged_l1_batch(L1BatchNumber(5), false),
        L1BatchNumber(5)
    );
    assert_eq!(diverged_l1_batch(L1BatchNumber(5), true), L1BatchNumber(6));
    assert_eq!(
        diverged_l1_batch(L1BatchNumber(u32::MAX), true),
        L1BatchNumber(u32::MAX)
    );
}

#[test]
fn remote_absence_counts_as_block_match() {
    assert!(agrees_or_remote_absent(&h(1), &None));
    assert!(agrees_or_remote_absent(&h(1), &Some(h(1))));
    assert!(!agrees_or_remote_absent(&h(1), &Some(h(2))));
}

#[test]
fn height_conversions() {
    assert_eq!(l1_batch_number_from_u64(7), Ok(L1BatchNumber(7)));
    assert_eq!(
        l1_batch_number_from_u64(u32::MAX as u64 + 1),
        Err(Error::Rpc(RpcErrorKind::Other))
    );
    assert_eq!(miniblock_number_from_u64(30), Ok(MiniblockNumber(30)));
    assert_eq!(
        miniblock_number_from_u64(u64::MAX),
        Err(Error::Rpc(RpcErrorKind::Other))
    );
}

#[test]
fn storage_error_conversion() {
    assert_eq!(
        Error::from(StorageError::Database),
        Error::Storage(StorageError::Database)
    );
}

#[test]
fn binary_search_finds_boundary() {
    // Agreement up to batch 6, divergence from 7 on, bracketed by (1, 10).
    let mut search = DivergenceSearch::new(1, 10);
    let mut probes: Vec<u32> = Vec::new();
    while !search.is_done() {
        let middle: u32 = search.probe();
        probes.push(middle);
        search.step(middle <= 6);
    }
    assert_eq!(search.result(), 6);
    assert_eq!(probes, vec![5, 7, 6]);
}

#[test]
fn binary_search_trivial_brackets() {
    let adjacent = DivergenceSearch::new(3, 4);
    assert!(adjacent.is_done());
    assert_eq!(adjacent.result(), 3);
    let collapsed = DivergenceSearch::new(5, 5);
    assert!(collapsed.is_done());
    assert_eq!(collapsed.result(), 5);
}

#[test]
fn queries_follow_state() {
    assert_eq!(DetectorState::Warmup.query(), Some(Query::WaitForFirstBatch));
    assert_eq!(
        (DetectorState::RoundLocalRoot {
            checked_batch: L1BatchNumber(4),
            checked_block: MiniblockNumber(9),
        })
        .query(),
        Some(Query::LocalBatchRoot(L1BatchNumber(4)))
    );
    assert_eq!(
        (DetectorState::SearchLocalRoot { search: DivergenceSearch::new(2, 9) }).query(),
        Some(Query::LocalBatchRoot(L1BatchNumber(5)))
    );
    assert_eq!(
        DetectorState::Failed(Error::NoRemoteL1Batch).query(),
        None
    );
}

#[test]
fn health_mapping() {
    assert_eq!(
        health_for_event(&SinkEvent::Initialized),
        Health { status: HealthStatus::Ready, details: None }
    );
    assert_eq!(
        health_for_event(&SinkEvent::UpdateCorrectBlock(
            MiniblockNumber(30),
            L1BatchNumber(10)
        )),
        Health {
            status: HealthStatus::Ready,
            details: Some(HealthDetails::CorrectBlock {
                last_correct_miniblock: MiniblockNumber(30),
                last_correct_l1_batch: L1BatchNumber(10),
            }),
        }
    );
    assert_eq!(
        health_for_event(&SinkEvent::ReportDivergence(L1BatchNumber(8))),
        Health {
            status: HealthStatus::Affected,
            details: Some(HealthDetails::Divergence { diverged_l1_batch: L1BatchNumber(8) }),
        }
    );
    assert_eq!(
        health_for_event(&SinkEvent::StartShuttingDown),
        Health { status: HealthStatus::ShuttingDown, details: None }
    );
}
