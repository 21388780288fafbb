use vstd::prelude::*;
use crate::types::{H256, L1BatchNumber, MiniblockNumber};

verus! {

/// The batch height checked in one round: the lower of the local and the
/// remote sealed batch tip. The detector never asks the main node about a
/// height beyond the main node's own tip, nor compares beyond its own.
pub open spec fn spec_checked_l1_batch(local: L1BatchNumber, remote: L1BatchNumber) -> L1BatchNumber {
    if local.0 <= remote.0 {
        local
    } else {
        remote
    }
}

pub fn checked_l1_batch(local: L1BatchNumber, remote: L1BatchNumber) -> (checked: L1BatchNumber)
    ensures
        checked == spec_checked_l1_batch(local, remote),
{
    if local.0 <= remote.0 {
        local
    } else {
        remote
    }
}

/// The miniblock height checked in one round, by the same rule.
pub open spec fn spec_checked_miniblock(local: MiniblockNumber, remote: MiniblockNumber) -> MiniblockNumber {
    if local.0 <= remote.0 {
        local
    } else {
        remote
    }
}

pub fn checked_miniblock(local: MiniblockNumber, remote: MiniblockNumber) -> (checked: MiniblockNumber)
    ensures
        checked == spec_checked_miniblock(local, remote),
{
    if local.0 <= remote.0 {
        local
    } else {
        remote
    }
}

/// Whether a locally held hash agrees with the main node's answer when the
/// main node may not have the height at all. An absent remote hash counts
/// as agreement: the local side is ahead of the remote's view, and the
/// detector waits for the remote to catch up rather than call it divergence.
pub open spec fn spec_agrees_or_remote_absent(local: H256, remote: Option<H256>) -> bool {
    match remote {
        None => true,
        Some(hash) => hash == local,
    }
}

pub fn agrees_or_remote_absent(local: &H256, remote: &Option<H256>) -> (agrees: bool)
    ensures
        agrees == spec_agrees_or_remote_absent(*local, *remote),
{
    match remote {
        None => true,
        Some(hash) => *hash == *local,
    }
}

/// The first batch that can have diverged, given the outcome of comparing
/// root hashes at the checked batch height. If the root hashes disagree,
/// divergence starts at the checked batch itself; if they agree and only
/// the miniblock hashes disagree, the first diverging batch cannot be the
/// checked one, so it is the next one. Saturates at the largest batch
/// number, which no real chain reaches.
pub open spec fn spec_diverged_l1_batch(checked: L1BatchNumber, root_hashes_match: bool) -> L1BatchNumber {
    if root_hashes_match && checked.0 < u32::MAX {
        L1BatchNumber((checked.0 + 1) as u32)
    } else {
        checked
    }
}

pub fn diverged_l1_batch(checked: L1BatchNumber, root_hashes_match: bool) -> (diverged: L1BatchNumber)
    ensures
        diverged == spec_diverged_l1_batch(checked, root_hashes_match),
{
    if root_hashes_match && checked.0 < u32::MAX {
        L1BatchNumber(checked.0 + 1)
    } else {
        checked
    }
}

/// Reading a sealed height from the main node: the wire carries a 64-bit
/// number, but a valid height fits in 32 bits. Anything larger is a
/// malformed (non-transient) reply.
pub fn l1_batch_number_from_u64(raw: u64) -> (res: Result<L1BatchNumber, crate::error::Error>)
    ensures
        raw <= u32::MAX ==> res == Result::<L1BatchNumber, crate::error::Error>::Ok(L1BatchNumber(raw as u32)),
        raw > u32::MAX ==> res == Result::<L1BatchNumber, crate::error::Error>::Err(
            crate::error::Error::Rpc(crate::error::RpcErrorKind::Other),
        ),
{
    if raw <= u32::MAX as u64 {
        Ok(L1BatchNumber(raw as u32))
    } else {
        Err(crate::error::Error::Rpc(crate::error::RpcErrorKind::Other))
    }
}

pub fn miniblock_number_from_u64(raw: u64) -> (res: Result<MiniblockNumber, crate::error::Error>)
    ensures
        raw <= u32::MAX ==> res == Result::<MiniblockNumber, crate::error::Error>::Ok(MiniblockNumber(raw as u32)),
        raw > u32::MAX ==> res == Result::<MiniblockNumber, crate::error::Error>::Err(
            crate::error::Error::Rpc(crate::error::RpcErrorKind::Other),
        ),
{
    if raw <= u32::MAX as u64 {
        Ok(MiniblockNumber(raw as u32))
    } else {
        Err(crate::error::Error::Rpc(crate::error::RpcErrorKind::Other))
    }
}

} // verus!
