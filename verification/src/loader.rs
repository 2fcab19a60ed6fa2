use vstd::prelude::*;

use crate::error::MarketError;

verus! {

/// One artifact's load in progress. The engine decides here which
/// source to use; the surrounding program only performs the step the
/// current phase calls for (read the cache file, fetch, write) and
/// reports what happened.
///
/// The policy, per artifact kind:
/// - a forced snapshot load starts at `Fetching` and never reads the
///   cache file;
/// - an unforced load reads the cache file first and uses a parseable
///   copy verbatim, with no fetch;
/// - an unreadable or unparseable cache file is absorbed: the load
///   falls through to a fetch;
/// - every fetched artifact is persisted before the load completes;
/// - a failed fetch or a failed write ends the run.
pub enum LoadPhase<T> {
    /// The persisted copy is to be read and decoded next.
    ReadingCache,
    /// A network fetch is to be made next.
    Fetching,
    /// The freshly fetched artifact is to be written to disk next.
    Persisting(T),
    /// The artifact is loaded.
    Done(T),
    /// The load failed; the run terminates with this error.
    Failed(MarketError),
}

/// What a network fetch came back with.
pub enum FetchOutcome<T> {
    /// Transport worked and the body decoded into an in-range artifact.
    Fetched(T),
    /// The request itself failed.
    TransportFailed,
    /// The body could not be decoded, or carried out-of-range values.
    Malformed,
}

/// Where a snapshot load begins: a forced refresh bypasses the cache
/// file outright.
pub open spec fn snapshot_start<T>(force: bool) -> LoadPhase<T> {
    if force {
        LoadPhase::Fetching
    } else {
        LoadPhase::ReadingCache
    }
}

/// Where the catalog load begins: the catalog is near-static, so it
/// deliberately ignores the force flag and always tries the cache
/// file first.
pub open spec fn catalog_start<T>() -> LoadPhase<T> {
    LoadPhase::ReadingCache
}

/// What follows a cache-file read: a decoded copy is used verbatim and
/// completes the load; anything less falls through to a fetch.
pub open spec fn after_cache_read<T>(found: Option<T>) -> LoadPhase<T> {
    match found {
        Some(t) => LoadPhase::Done(t),
        None => LoadPhase::Fetching,
    }
}

/// What follows a fetch: a good artifact must still be persisted; a
/// transport or decode failure is fatal.
pub open spec fn after_fetch<T>(outcome: FetchOutcome<T>) -> LoadPhase<T> {
    match outcome {
        FetchOutcome::Fetched(t) => LoadPhase::Persisting(t),
        FetchOutcome::TransportFailed => LoadPhase::Failed(MarketError::NetworkFailure),
        FetchOutcome::Malformed => LoadPhase::Failed(MarketError::DecodeFailure),
    }
}

/// What follows the write-back of a fetched artifact.
pub open spec fn after_persist<T>(artifact: T, ok: bool) -> LoadPhase<T> {
    if ok {
        LoadPhase::Done(artifact)
    } else {
        LoadPhase::Failed(MarketError::CacheWriteFailure)
    }
}

impl<T> LoadPhase<T> {
    /// Begins a price or volume snapshot load.
    pub fn begin_snapshot(force: bool) -> (r: Self)
        ensures
            r == snapshot_start::<T>(force),
    {
        if force {
            LoadPhase::Fetching
        } else {
            LoadPhase::ReadingCache
        }
    }

    /// Begins the catalog load.
    pub fn begin_catalog() -> (r: Self)
        ensures
            r == catalog_start::<T>(),
    {
        LoadPhase::ReadingCache
    }

    /// Advances past the cache-file read. `found` is the decoded copy,
    /// or `None` for a missing, unreadable or unparseable file — those
    /// are absorbed here, not surfaced.
    pub fn cache_read(self, found: Option<T>) -> (r: Self)
        requires
            self is ReadingCache,
        ensures
            r == after_cache_read(found),
    {
        match found {
            Some(t) => LoadPhase::Done(t),
            None => LoadPhase::Fetching,
        }
    }

    /// Advances past the network fetch.
    pub fn fetched(self, outcome: FetchOutcome<T>) -> (r: Self)
        requires
            self is Fetching,
        ensures
            r == after_fetch(outcome),
    {
        match outcome {
            FetchOutcome::Fetched(t) => LoadPhase::Persisting(t),
            FetchOutcome::TransportFailed => LoadPhase::Failed(MarketError::NetworkFailure),
            FetchOutcome::Malformed => LoadPhase::Failed(MarketError::DecodeFailure),
        }
    }

    /// Advances past the write-back of the fetched artifact.
    pub fn persisted(self, ok: bool) -> (r: Self)
        requires
            self is Persisting,
        ensures
            r == after_persist(self->Persisting_0, ok),
    {
        match self {
            LoadPhase::Persisting(t) => {
                if ok {
                    LoadPhase::Done(t)
                } else {
                    LoadPhase::Failed(MarketError::CacheWriteFailure)
                }
            },
            _ => LoadPhase::Failed(MarketError::CacheWriteFailure),
        }
    }
}

/// A forced refresh always goes to the network: it starts at a fetch,
/// and no phase a forced load can reach ever reads the cache file.
pub proof fn lemma_forced_refresh_always_fetches<T>()
    ensures
        snapshot_start::<T>(true) is Fetching,
        forall|outcome: FetchOutcome<T>| !(#[trigger] after_fetch(outcome) is ReadingCache),
        forall|t: T, ok: bool| !(#[trigger] after_persist(t, ok) is ReadingCache),
{
}

/// An unforced load with a parseable cache file completes with that
/// copy, verbatim, without ever reaching the fetch phase.
pub proof fn lemma_cache_hit_skips_fetch<T>(cached: T)
    ensures
        snapshot_start::<T>(false) is ReadingCache,
        after_cache_read(Some(cached)) == LoadPhase::Done(cached),
{
}

/// A fetched artifact is never handed out directly: the only phase
/// that follows a successful fetch is the write-back, and the load
/// completes with exactly the artifact that was written.
pub proof fn lemma_fetch_is_persisted<T>(fetched_artifact: T)
    ensures
        after_fetch(FetchOutcome::Fetched(fetched_artifact)) == LoadPhase::Persisting(
            fetched_artifact,
        ),
        after_persist(fetched_artifact, true) == LoadPhase::Done(fetched_artifact),
        after_persist(fetched_artifact, false) == LoadPhase::<T>::Failed(
            MarketError::CacheWriteFailure,
        ),
{
}

} // verus!
