use vstd::prelude::*;
use crate::types::{L1BatchNumber, MiniblockNumber};

verus! {

/// Classification of a failed call to the main node, as far as the detector
/// reads it: transport failures and request timeouts are worth retrying,
/// any other client error is not.
#[derive(Clone, Copy, Debug, PartialEq, Eq, Structural)]
pub enum RpcErrorKind {
    Transport,
    RequestTimeout,
    Other,
}

/// A failure reading the local block store, or a local invariant found
/// broken through store reads.
#[derive(Clone, Copy, Debug, PartialEq, Eq, Structural)]
pub enum StorageError {
    /// The store itself failed (connection, query).
    Database,
    /// A sealed miniblock has no header locally, so its hash cannot be read.
    MissingMiniblockHeader(MiniblockNumber),
    /// A batch counted as having metadata has no root hash locally.
    MissingL1BatchRootHash(L1BatchNumber),
    /// All batches with metadata disappeared between two store reads.
    NoL1BatchesWithMetadata,
}

/// Everything that can end a consistency check or the run loop.
#[derive(Clone, Copy, Debug, PartialEq, Eq, Structural)]
pub enum Error {
    /// A call to the main node failed.
    Rpc(RpcErrorKind),
    /// The earliest locally retained batch disagrees with the main node on
    /// its root hash; unrecoverable without re-seeding the local store.
    EarliestHashMismatch(L1BatchNumber),
    /// The earliest locally retained batch is absent on the main node;
    /// unrecoverable for the same reason.
    EarliestL1BatchTruncated(L1BatchNumber),
    /// Divergence was localized; the payload is the last correct batch.
    ReorgDetected(L1BatchNumber),
    /// The local block store failed or broke an invariant.
    Storage(StorageError),
    /// The main node has not yet published a root hash for a batch it
    /// claims to have sealed.
    NoRemoteL1Batch,
}

impl Error {
    /// Whether the error only reflects a condition that a later round may
    /// find cleared, so the run loop should sleep and retry.
    pub open spec fn spec_is_transient(self) -> bool {
        match self {
            Error::NoRemoteL1Batch => true,
            Error::Rpc(kind) => kind is Transport || kind is RequestTimeout,
            _ => false,
        }
    }

    pub fn is_transient(&self) -> (transient: bool)
        ensures
            transient == self.spec_is_transient(),
    {
        match self {
            Error::NoRemoteL1Batch => true,
            Error::Rpc(kind) => match kind {
                RpcErrorKind::Transport | RpcErrorKind::RequestTimeout => true,
                RpcErrorKind::Other => false,
            },
            _ => false,
        }
    }
}

/// An error is transient exactly when it is a transport failure, a request
/// timeout, or a remotely unpublished batch root; every other kind is
/// terminal.
pub proof fn lemma_transient_classification(err: Error)
    ensures
        err.spec_is_transient() <==> (err == Error::NoRemoteL1Batch
            || err == Error::Rpc(RpcErrorKind::Transport)
            || err == Error::Rpc(RpcErrorKind::RequestTimeout)),
{
}

impl From<StorageError> for Error {
    fn from(err: StorageError) -> (r: Self) {
        Error::Storage(err)
    }
}

impl vstd::std_specs::convert::FromSpecImpl<StorageError> for Error {
    open spec fn obeys_from_spec() -> bool {
        true
    }

    open spec fn from_spec(err: StorageError) -> Self {
        Error::Storage(err)
    }
}

} // verus!
