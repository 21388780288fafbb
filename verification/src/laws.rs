//! The detector's guarantees, stated over the transition relation of
//! `DetectorState` and proved once and for all. Each proof function here is
//! part of the crate's public statement of behaviour; none is a helper.

use vstd::prelude::*;
use crate::checker::{
    spec_agrees_or_remote_absent, spec_checked_l1_batch, spec_checked_miniblock,
};
use crate::detector::{spec_fail, DetectorState, Event, SinkEvent};
use crate::error::{Error, RpcErrorKind};
use crate::localizer::{
    lemma_midpoint_between, lemma_search_boundary, lemma_search_step_preserves_bracket,
    DivergenceSearch,
};
use crate::types::{H256, L1BatchNumber, MiniblockNumber};

verus! {

/// The machine driven over a whole sequence of events: the state reached
/// and the sink notifications emitted, in order.
pub open spec fn spec_run(state: DetectorState, events: Seq<Event>) -> (DetectorState, Seq<
    SinkEvent,
>)
    decreases events.len(),
{
    if events.len() == 0 {
        (state, Seq::empty())
    } else {
        let stepped = state.spec_step(events[0]);
        let rest = spec_run(stepped.0, events.drop_first());
        (
            rest.0,
            match stepped.1 {
                Some(emitted) => seq![emitted] + rest.1,
                None => rest.1,
            },
        )
    }
}

/// A round against a backend that agrees hash-by-hash at the common minimum
/// heights succeeds: no step before the last emits anything, and the last
/// emits exactly one progress notification carrying those minima, after
/// which the detector sleeps until the next round. An absent remote
/// miniblock hash counts as agreement, the local side being ahead.
pub proof fn lemma_agreeing_round_emits_progress(
    local_batch: L1BatchNumber,
    local_block: MiniblockNumber,
    remote_batch: L1BatchNumber,
    remote_block: MiniblockNumber,
    local_root: H256,
    remote_root: H256,
    local_hash: H256,
    remote_hash: Option<H256>,
)
    requires
        remote_root == local_root,
        spec_agrees_or_remote_absent(local_hash, remote_hash),
    ensures
        ({
            let t1 = DetectorState::RoundLocalBatch.spec_step(
                Event::LocalLastBatch(Some(local_batch)),
            );
            let t2 = t1.0.spec_step(Event::LocalSealedBlock(Some(local_block)));
            let t3 = t2.0.spec_step(Event::RemoteSealedBatch(remote_batch));
            let t4 = t3.0.spec_step(Event::RemoteSealedBlock(remote_block));
            let t5 = t4.0.spec_step(Event::LocalBatchRoot(Some(local_root)));
            let t6 = t5.0.spec_step(Event::RemoteBatchRoot(Some(remote_root)));
            let t7 = t6.0.spec_step(Event::LocalBlockHash(Some(local_hash)));
            let t8 = t7.0.spec_step(Event::RemoteBlockHash(remote_hash));
            &&& t1.1 is None
            &&& t2.1 is None
            &&& t3.1 is None
            &&& t4.1 is None
            &&& t5.1 is None
            &&& t6.1 is None
            &&& t7.1 is None
            &&& t8.0 == DetectorState::SleepSteady
            &&& t8.1 == Some(
                SinkEvent::UpdateCorrectBlock(
                    spec_checked_miniblock(local_block, remote_block),
                    spec_checked_l1_batch(local_batch, remote_batch),
                ),
            )
        }),
{
}

/// Repeating the check with unchanged backend state returns the same
/// outcome: the machine is deterministic, so once the backend's answers are
/// fixed as an event sequence, the state reached and the notifications
/// emitted are fixed too.
pub proof fn lemma_run_idempotent(
    state: DetectorState,
    first: Seq<Event>,
    second: Seq<Event>,
)
    requires
        first == second,
    ensures
        spec_run(state, first) == spec_run(state, second),
{
}

/// An empty local store ends the round at once, with success and without
/// any notification: whether no batch has metadata yet or no miniblock is
/// sealed yet, the node is still bootstrapping and the detector just
/// sleeps until the next round.
pub proof fn lemma_empty_store_round_succeeds(local_batch: L1BatchNumber)
    ensures
        ({
            let no_batch = DetectorState::RoundLocalBatch.spec_step(
                Event::LocalLastBatch(None),
            );
            let no_block = (DetectorState::RoundLocalBlock { local_batch }).spec_step(
                Event::LocalSealedBlock(None),
            );
            &&& no_batch.0 == DetectorState::SleepSteady
            &&& no_batch.1 is None
            &&& no_block.0 == DetectorState::SleepSteady
            &&& no_block.1 is None
        }),
{
}

/// When the root hashes disagree at the checked batch, divergence is
/// reported at that batch itself, whatever the miniblock comparison found.
pub proof fn lemma_root_mismatch_reports_checked_batch(
    checked_batch: L1BatchNumber,
    checked_block: MiniblockNumber,
    local_hash: H256,
    remote_hash: Option<H256>,
)
    ensures
        ({
            let t1 = DetectorState::RoundLocalBlockHash {
                checked_batch,
                checked_block,
                root_hashes_match: false,
            }.spec_step(Event::LocalBlockHash(Some(local_hash)));
            let t2 = t1.0.spec_step(Event::RemoteBlockHash(remote_hash));
            &&& t1.1 is None
            &&& t2.0 == DetectorState::FindEarliest { diverged: checked_batch }
            &&& t2.1 == Some(SinkEvent::ReportDivergence(checked_batch))
        }),
{
}

/// When the root hashes agree at the checked batch but the miniblock
/// hashes disagree, the checked batch itself cannot be the first diverging
/// one, so divergence is reported one past it.
pub proof fn lemma_block_mismatch_reports_next_batch(
    checked_batch: L1BatchNumber,
    checked_block: MiniblockNumber,
    local_hash: H256,
    remote_hash: H256,
)
    requires
        remote_hash != local_hash,
        checked_batch.0 < u32::MAX,
    ensures
        ({
            let next = L1BatchNumber((checked_batch.0 + 1) as u32);
            let stepped = DetectorState::RoundRemoteBlockHash {
                checked_batch,
                checked_block,
                root_hashes_match: true,
                local_hash,
            }.spec_step(Event::RemoteBlockHash(Some(remote_hash)));
            &&& stepped.0 == DetectorState::FindEarliest { diverged: next }
            &&& stepped.1 == Some(SinkEvent::ReportDivergence(next))
        }),
{
}

/// The verdict localization gets when probing batch `m` against a fixed
/// backend: the local root at `m` versus the main node's answer, an absent
/// remote root counting as agreement.
pub open spec fn spec_probe_agrees(
    local_roots: spec_fn(int) -> H256,
    remote_roots: spec_fn(int) -> Option<H256>,
    m: int,
) -> bool {
    spec_agrees_or_remote_absent(local_roots(m), remote_roots(m))
}

/// The exact event sequence a fixed backend answers while the machine
/// localizes a divergence: two events per probe, until the bracket can no
/// longer narrow.
pub open spec fn spec_search_events(
    search: DivergenceSearch,
    local_roots: spec_fn(int) -> H256,
    remote_roots: spec_fn(int) -> Option<H256>,
) -> Seq<Event>
    decreases search.right - search.left,
        via spec_search_events_decreases
{
    if search.spec_done() {
        Seq::empty()
    } else {
        let probe = search.spec_probe();
        let narrowed = search.spec_step(spec_probe_agrees(local_roots, remote_roots, probe));
        seq![
            Event::LocalBatchRoot(Some(local_roots(probe))),
            Event::RemoteBatchRoot(remote_roots(probe)),
        ] + spec_search_events(narrowed, local_roots, remote_roots)
    }
}

#[via_fn]
proof fn spec_search_events_decreases(
    search: DivergenceSearch,
    local_roots: spec_fn(int) -> H256,
    remote_roots: spec_fn(int) -> Option<H256>,
) {
    if !search.spec_done() {
        lemma_midpoint_between(search.left as int, search.right as int);
    }
}

/// Localization, end to end: against any fixed backend, once a bracket
/// holds an agreeing batch on the left and a diverging one on the right,
/// the machine's binary search runs to completion without emitting
/// anything further and ends the run with `ReorgDetected` carrying a true
/// boundary: a batch inside the bracket whose roots agree while the next
/// batch's roots do not.
pub proof fn lemma_localization_finds_boundary(
    search: DivergenceSearch,
    local_roots: spec_fn(int) -> H256,
    remote_roots: spec_fn(int) -> Option<H256>,
)
    requires
        !search.spec_done(),
        spec_probe_agrees(local_roots, remote_roots, search.left as int),
        !spec_probe_agrees(local_roots, remote_roots, search.right as int),
    ensures
        ({
            let run = spec_run(
                (DetectorState::SearchLocalRoot { search }),
                spec_search_events(search, local_roots, remote_roots),
            );
            &&& run.1 =~= Seq::<SinkEvent>::empty()
            &&& run.0 matches DetectorState::Failed(Error::ReorgDetected(last_correct))
                && spec_probe_agrees(local_roots, remote_roots, last_correct.0 as int)
                && !spec_probe_agrees(local_roots, remote_roots, last_correct.0 + 1)
                && search.left <= last_correct.0 < search.right
        }),
    decreases search.right - search.left,
{
    let agrees = |m: int| spec_probe_agrees(local_roots, remote_roots, m);
    assert(search.brackets(agrees));
    let probe = search.spec_probe();
    lemma_midpoint_between(search.left as int, search.right as int);
    let verdict = spec_probe_agrees(local_roots, remote_roots, probe);
    let narrowed = search.spec_step(verdict);
    lemma_search_step_preserves_bracket(search, agrees, verdict);

    let local_event = Event::LocalBatchRoot(Some(local_roots(probe)));
    let remote_event = Event::RemoteBatchRoot(remote_roots(probe));
    let rest = spec_search_events(narrowed, local_roots, remote_roots);
    let events = spec_search_events(search, local_roots, remote_roots);
    assert(events == seq![local_event, remote_event] + rest);
    assert(events[0] == local_event);
    assert(events.drop_first() =~= seq![remote_event] + rest);
    assert(events.drop_first()[0] == remote_event);
    assert(events.drop_first().drop_first() =~= rest);

    let after_local = (DetectorState::SearchLocalRoot { search }).spec_step(local_event);
    assert(after_local.0 == (DetectorState::SearchRemoteRoot {
        search,
        local_root: local_roots(probe),
    }));
    assert(after_local.1 is None);
    let after_remote = after_local.0.spec_step(remote_event);
    assert(after_remote.1 is None);

    let run = spec_run((DetectorState::SearchLocalRoot { search }), events);
    let run_tail = spec_run(after_local.0, events.drop_first());
    assert(run.0 == run_tail.0 && run.1 =~= run_tail.1);
    let run_tail2 = spec_run(after_remote.0, rest);
    assert(run_tail.0 == run_tail2.0 && run_tail.1 =~= run_tail2.1);

    if narrowed.spec_done() {
        lemma_search_boundary(narrowed, agrees);
        assert(after_remote.0 == DetectorState::Failed(
            Error::ReorgDetected(L1BatchNumber(narrowed.left)),
        ));
        assert(rest =~= Seq::<Event>::empty());
        assert(run_tail2 == (after_remote.0, Seq::<SinkEvent>::empty()));
    } else {
        assert(after_remote.0 == (DetectorState::SearchLocalRoot { search: narrowed }));
        lemma_localization_finds_boundary(narrowed, local_roots, remote_roots);
    }
}

/// The whole divergence path, end to end: once divergence is reported at
/// `diverged` and the earliest retained batch still agrees, reading the
/// earliest batch and running the search terminates the run with
/// `ReorgDetected` carrying the last correct batch: all probes at or below
/// it agreed, and the batch right after it diverges.
pub proof fn lemma_divergence_ends_in_reorg_detected(
    diverged: L1BatchNumber,
    earliest: L1BatchNumber,
    local_roots: spec_fn(int) -> H256,
    remote_roots: spec_fn(int) -> Option<H256>,
)
    requires
        earliest.0 < diverged.0,
        spec_probe_agrees(local_roots, remote_roots, earliest.0 as int),
        !spec_probe_agrees(local_roots, remote_roots, diverged.0 as int),
    ensures
        ({
            let search = (DivergenceSearch { left: earliest.0, right: diverged.0 });
            let events = seq![Event::LocalEarliestBatch(Some(earliest))]
                + spec_search_events(search, local_roots, remote_roots);
            let run = spec_run((DetectorState::FindEarliest { diverged }), events);
            &&& run.1 =~= Seq::<SinkEvent>::empty()
            &&& run.0 matches DetectorState::Failed(Error::ReorgDetected(last_correct))
                && spec_probe_agrees(local_roots, remote_roots, last_correct.0 as int)
                && !spec_probe_agrees(local_roots, remote_roots, last_correct.0 + 1)
                && earliest.0 <= last_correct.0 < diverged.0
        }),
{
    let search = DivergenceSearch { left: earliest.0, right: diverged.0 };
    let search_events = spec_search_events(search, local_roots, remote_roots);
    let events = seq![Event::LocalEarliestBatch(Some(earliest))] + search_events;
    assert(events[0] == Event::LocalEarliestBatch(Some(earliest)));
    assert(events.drop_first() =~= search_events);
    let first = (DetectorState::FindEarliest { diverged }).spec_step(events[0]);
    assert(first.1 is None);
    let run = spec_run((DetectorState::FindEarliest { diverged }), events);
    let run_tail = spec_run(first.0, search_events);
    assert(run.0 == run_tail.0 && run.1 =~= run_tail.1);
    if search.spec_done() {
        // The bracket was already minimal: the earliest batch itself is the
        // last correct one, and `diverged` is the batch right after it.
        assert(first.0 == DetectorState::Failed(Error::ReorgDetected(earliest)));
        assert(search_events =~= Seq::<Event>::empty());
        assert(run_tail == (first.0, Seq::<SinkEvent>::empty()));
        assert(diverged.0 == earliest.0 + 1);
    } else {
        assert(first.0 == (DetectorState::SearchLocalRoot { search }));
        lemma_localization_finds_boundary(search, local_roots, remote_roots);
    }
}

/// A transient failure never ends the run: in every state that can see a
/// remote-call failure, a transport failure or request timeout sends the
/// machine to sleep, and waking without the stop signal restarts it from
/// warmup, where a later round may succeed.
pub proof fn lemma_transient_rpc_retries(state: DetectorState, kind: RpcErrorKind)
    requires
        state.accepts(Event::RpcFailed(kind)),
        Error::Rpc(kind).spec_is_transient(),
    ensures
        state.spec_step(Event::RpcFailed(kind)) == (
            DetectorState::SleepRetry,
            Option::<SinkEvent>::None,
        ),
        DetectorState::SleepRetry.spec_step(Event::Slept { stop: false }) == (
            DetectorState::Warmup,
            Option::<SinkEvent>::None,
        ),
{
}

/// A remotely unpublished root hash for a batch the main node claims to
/// have sealed is transient as well: the round is retried from warmup.
pub proof fn lemma_no_remote_batch_retries(
    checked_batch: L1BatchNumber,
    checked_block: MiniblockNumber,
    local_root: H256,
)
    ensures
        ({
            let stepped = (DetectorState::RoundRemoteRoot {
                checked_batch,
                checked_block,
                local_root,
            }).spec_step(Event::RemoteBatchRoot(None));
            &&& stepped.0 == DetectorState::SleepRetry
            &&& stepped.1 is None
            &&& spec_fail(Error::NoRemoteL1Batch) == (
                DetectorState::SleepRetry,
                Option::<SinkEvent>::None,
            )
        }),
{
}

} // verus!
