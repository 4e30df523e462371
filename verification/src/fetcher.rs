//! The function fetcher: resolves a function id and a deployment timestamp
//! to an artifact through three tiers, in order. L1 is the in-memory cache;
//! L2 is a per-function file under the cache directory, whose mtime is the
//! freshness clock; the origin is the object store, whose body is
//! decompressed and opportunistically precompiled.
//!
//! The tier walk is a small state machine, `FetchFlow`. The caller performs
//! the file and network reads and hands their outcomes to the steps; the
//! steps decide hits, misses and cache admission, so that each resolution is
//! pinned by a contract: exactly one of L1 hit, L2 hit, origin success or a
//! typed error ends a flow.

use vstd::prelude::*;
use crate::artifact::{ArtifactView, FetchedFunction};
use crate::cache::MemoryCache;

verus! {

/// The typed fetch failures: the origin could not deliver the object, or
/// its body did not decompress.
#[derive(Clone, Copy, Debug, PartialEq, Eq, Structural)]
pub enum FetchFunctionError {
    Download,
    Decompression,
}

/// What an L1 probe of cache state `m` for `id` at deployment timestamp `t`
/// resolves to: the cached artifact exactly when one is present and was
/// fetched at or after `t`.
pub open spec fn l1_resolution(m: Map<u128, ArtifactView>, id: u128, t: u64) -> Option<
    ArtifactView,
> {
    if m.contains_key(id) && m[id].fetched_at >= t {
        Some(m[id])
    } else {
        None
    }
}

/// The L2 freshness test: a cache file answers for deployment timestamp `t`
/// exactly when its mtime is at or after `t` (an equal timestamp is fresh).
pub open spec fn l2_fresh(mtime: Option<u64>, t: u64) -> bool {
    match mtime {
        Some(m) => m >= t,
        None => false,
    }
}

/// The fetcher: the L1 cache plus the directory its L2 files live in. The
/// object-store client stays with the caller; the fetcher only decides.
pub struct FunctionFetcher {
    memory_cache: MemoryCache,
    cache_dir: String,
}

impl View for FunctionFetcher {
    type V = Map<u128, ArtifactView>;

    closed spec fn view(&self) -> Map<u128, ArtifactView> {
        self.memory_cache@
    }
}

impl FunctionFetcher {
    pub closed spec fn wf(&self) -> bool {
        self.memory_cache.wf()
    }

    pub closed spec fn spec_cache_dir(&self) -> Seq<char> {
        self.cache_dir@
    }

    /// A fetcher with an empty L1 cache over the given cache directory.
    pub fn new(cache_dir: String) -> (r: Self)
        ensures
            r.wf(),
            r@ == Map::<u128, ArtifactView>::empty(),
            r.spec_cache_dir() == cache_dir@,
    {
        FunctionFetcher { memory_cache: MemoryCache::new(), cache_dir }
    }

    /// The directory the L2 cache files live in.
    pub fn cache_dir(&self) -> (r: &str)
        ensures
            r@ == self.spec_cache_dir(),
    {
        self.cache_dir.as_str()
    }

    /// The L1 probe: a shared copy of the cached artifact on a hit. A stale
    /// entry is left in place; a later admission overwrites it.
    pub fn fetch_l1(&self, function_id: u128, last_deployment_timestamp: u64) -> (r: Option<
        FetchedFunction,
    >)
        requires
            self.wf(),
        ensures
            match r {
                Some(a) => l1_resolution(self@, function_id, last_deployment_timestamp)
                    == Some(a@),
                None => l1_resolution(self@, function_id, last_deployment_timestamp) is None,
            },
    {
        match self.memory_cache.lookup(function_id) {
            Some(cached) => {
                if cached.fetched_at() >= last_deployment_timestamp {
                    Some(cached.clone())
                } else {
                    None
                }
            },
            None => None,
        }
    }

    /// Admits a fresh L2 file into L1 and returns its artifact. The file
    /// only ever holds what was written after a precompile attempt or read
    /// back unchanged, so the artifact is marked precompiled.
    pub fn admit_l2(&mut self, function_id: u128, file_bytes: Vec<u8>, now: u64) -> (r:
        FetchedFunction)
        requires
            old(self).wf(),
        ensures
            final(self).wf(),
            final(self).spec_cache_dir() == old(self).spec_cache_dir(),
            r@.bytes == file_bytes@,
            r@.is_precompiled,
            r@.fetched_at == now,
            final(self)@ == old(self)@.insert(function_id, r@),
    {
        let artifact = FetchedFunction::from_precompiled_wasm(file_bytes, now);
        let r = artifact.clone();
        self.memory_cache.insert(function_id, artifact);
        r
    }

    /// Admits an origin fetch: attempts precompilation, admits the artifact
    /// into L1 and returns it. The caller writes the returned artifact's
    /// bytes to the L2 file (a failed write is logged, not fatal).
    pub fn admit_origin(&mut self, function_id: u128, wasm_bytes: Vec<u8>, now: u64) -> (r:
        FetchedFunction)
        requires
            old(self).wf(),
        ensures
            final(self).wf(),
            final(self).spec_cache_dir() == old(self).spec_cache_dir(),
            r@.fetched_at == now,
            !r@.is_precompiled ==> r@.bytes == wasm_bytes@,
            final(self)@ == old(self)@.insert(function_id, r@),
    {
        let artifact = FetchedFunction::try_precompile(wasm_bytes, now);
        let r = artifact.clone();
        self.memory_cache.insert(function_id, artifact);
        r
    }
}

/// How a finished fetch resolved: exactly one of the three tiers answered,
/// or the fetch failed with a typed error.
#[derive(Debug)]
pub enum FetchResolution {
    L1Hit { artifact: FetchedFunction },
    L2Hit { artifact: FetchedFunction },
    OriginSuccess { artifact: FetchedFunction },
    Failed { error: FetchFunctionError },
}

/// Where a fetch in flight stands: the tiers are consulted strictly in this
/// order, and a tier is consulted only after every earlier tier missed.
#[derive(Debug)]
pub enum FetchState {
    AtL1,
    AtL2Stat,
    AtL2Read,
    AtOrigin,
    Finished { resolution: FetchResolution },
}

/// One fetch of one function, walked tier by tier.
#[derive(Debug)]
pub struct FetchFlow {
    pub function_id: u128,
    pub last_deployment_timestamp: u64,
    pub state: FetchState,
}

impl FetchFlow {
    /// Starts a fetch: the first tier consulted is L1.
    pub fn begin(function_id: u128, last_deployment_timestamp: u64) -> (r: Self)
        ensures
            r.function_id == function_id,
            r.last_deployment_timestamp == last_deployment_timestamp,
            r.state is AtL1,
    {
        FetchFlow { function_id, last_deployment_timestamp, state: FetchState::AtL1 }
    }

    /// Consults L1. A hit finishes the fetch with the cached artifact,
    /// which was fetched at or after the deployment timestamp; a miss moves
    /// on to the L2 file's metadata.
    pub fn step_l1(&mut self, fetcher: &FunctionFetcher)
        requires
            fetcher.wf(),
            old(self).state is AtL1,
        ensures
            final(self).function_id == old(self).function_id,
            final(self).last_deployment_timestamp == old(self).last_deployment_timestamp,
            match final(self).state {
                FetchState::Finished { resolution: FetchResolution::L1Hit { artifact } } => {
                    &&& l1_resolution(
                        fetcher@,
                        old(self).function_id,
                        old(self).last_deployment_timestamp,
                    ) == Some(artifact@)
                    &&& artifact@.fetched_at >= old(self).last_deployment_timestamp
                },
                FetchState::AtL2Stat => l1_resolution(
                    fetcher@,
                    old(self).function_id,
                    old(self).last_deployment_timestamp,
                ) is None,
                _ => false,
            },
    {
        match fetcher.fetch_l1(self.function_id, self.last_deployment_timestamp) {
            Some(artifact) => {
                self.state = FetchState::Finished {
                    resolution: FetchResolution::L1Hit { artifact },
                };
            },
            None => {
                self.state = FetchState::AtL2Stat;
            },
        }
    }

    /// Judges the L2 file's mtime (`None`: the file could not be inspected).
    /// A fresh file is read next; anything else falls through to the origin.
    /// Freshness is inclusive: an mtime equal to the deployment timestamp is
    /// a hit.
    pub fn step_l2_stat(&mut self, mtime: Option<u64>)
        requires
            old(self).state is AtL2Stat,
        ensures
            final(self).function_id == old(self).function_id,
            final(self).last_deployment_timestamp == old(self).last_deployment_timestamp,
            final(self).state == if l2_fresh(mtime, old(self).last_deployment_timestamp) {
                FetchState::AtL2Read
            } else {
                FetchState::AtOrigin
            },
    {
        let fresh = match mtime {
            Some(m) => m >= self.last_deployment_timestamp,
            None => false,
        };
        if fresh {
            self.state = FetchState::AtL2Read;
        } else {
            self.state = FetchState::AtOrigin;
        }
    }

    /// Takes the L2 file's bytes (`None`: the read failed, which is treated
    /// as a miss). A read file is admitted into L1 and finishes the fetch as
    /// an L2 hit, always precompiled; a failed read falls through to the
    /// origin with the cache untouched.
    pub fn step_l2_read(
        &mut self,
        fetcher: &mut FunctionFetcher,
        file_bytes: Option<Vec<u8>>,
        now: u64,
    )
        requires
            old(self).state is AtL2Read,
            old(fetcher).wf(),
        ensures
            final(fetcher).wf(),
            final(fetcher).spec_cache_dir() == old(fetcher).spec_cache_dir(),
            final(self).function_id == old(self).function_id,
            final(self).last_deployment_timestamp == old(self).last_deployment_timestamp,
            match file_bytes {
                Some(b) => match final(self).state {
                    FetchState::Finished { resolution: FetchResolution::L2Hit { artifact } } => {
                        &&& artifact@.bytes == b@
                        &&& artifact@.is_precompiled
                        &&& artifact@.fetched_at == now
                        &&& now >= old(self).last_deployment_timestamp
                            ==> artifact@.fetched_at >= old(self).last_deployment_timestamp
                        &&& final(fetcher)@ == old(fetcher)@.insert(
                            old(self).function_id,
                            artifact@,
                        )
                    },
                    _ => false,
                },
                None => final(self).state is AtOrigin && final(fetcher)@ == old(fetcher)@,
            },
    {
        match file_bytes {
            Some(b) => {
                let artifact = fetcher.admit_l2(self.function_id, b, now);
                self.state = FetchState::Finished {
                    resolution: FetchResolution::L2Hit { artifact },
                };
            },
            None => {
                self.state = FetchState::AtOrigin;
            },
        }
    }

    /// Takes the origin's outcome: the decompressed Wasm, or the typed
    /// error. A body is precompiled where possible, admitted into L1 and
    /// finishes the fetch as an origin success; the caller then writes the
    /// artifact's bytes to the L2 file. An error finishes the fetch failed,
    /// with the cache untouched.
    pub fn step_origin(
        &mut self,
        fetcher: &mut FunctionFetcher,
        body: Result<Vec<u8>, FetchFunctionError>,
        now: u64,
    )
        requires
            old(self).state is AtOrigin,
            old(fetcher).wf(),
        ensures
            final(fetcher).wf(),
            final(fetcher).spec_cache_dir() == old(fetcher).spec_cache_dir(),
            final(self).function_id == old(self).function_id,
            final(self).last_deployment_timestamp == old(self).last_deployment_timestamp,
            match body {
                Ok(wasm) => match final(self).state {
                    FetchState::Finished {
                        resolution: FetchResolution::OriginSuccess { artifact },
                    } => {
                        &&& artifact@.fetched_at == now
                        &&& !artifact@.is_precompiled ==> artifact@.bytes == wasm@
                        &&& final(fetcher)@ == old(fetcher)@.insert(
                            old(self).function_id,
                            artifact@,
                        )
                    },
                    _ => false,
                },
                Err(e) => final(self).state == (FetchState::Finished {
                    resolution: FetchResolution::Failed { error: e },
                }) && final(fetcher)@ == old(fetcher)@,
            },
    {
        match body {
            Ok(wasm) => {
                let artifact = fetcher.admit_origin(self.function_id, wasm, now);
                self.state = FetchState::Finished {
                    resolution: FetchResolution::OriginSuccess { artifact },
                };
            },
            Err(error) => {
                self.state = FetchState::Finished {
                    resolution: FetchResolution::Failed { error },
                };
            },
        }
    }
}

/// Law: every cache hit is fresh: an L1 resolution only ever hands out an
/// artifact fetched at or after the requested deployment timestamp.
pub proof fn lemma_l1_hits_are_fresh(m: Map<u128, ArtifactView>, id: u128, t: u64)
    ensures
        match l1_resolution(m, id, t) {
            Some(a) => a.fetched_at >= t,
            None => true,
        },
{
}

/// Law: once an origin fetch (or any admission) has cached an artifact that
/// was fetched at or after the deployment timestamp, a fetch for the same id
/// and the same timestamp is an L1 hit, and it returns exactly the cached
/// artifact: equal inputs give byte-identical artifacts.
pub proof fn lemma_fetch_after_admit_is_hit(
    m: Map<u128, ArtifactView>,
    id: u128,
    a: ArtifactView,
    t: u64,
)
    requires
        a.fetched_at >= t,
    ensures
        l1_resolution(m.insert(id, a), id, t) == Some(a),
{
}

/// Law: the L1 freshness test is inclusive, like the L2 one: an entry
/// fetched exactly at the deployment timestamp is a hit.
pub proof fn lemma_l1_equal_timestamp_is_hit(m: Map<u128, ArtifactView>, id: u128, t: u64)
    requires
        m.contains_key(id),
        m[id].fetched_at == t,
    ensures
        l1_resolution(m, id, t) == Some(m[id]),
{
}

} // verus!
