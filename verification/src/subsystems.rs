use vstd::prelude::*;

use crate::address::MinerAddress;
use crate::records::BlockRecord;

verus! {

/// Worker threads for background transaction recovery, one per unit of
/// expected parallelism.
pub const WORKER_COMPUTATION_PARALLELISM: usize = 8;

/// threadpool's thread pool, owned by the data manager for background work.
#[verifier::external_type_specification]
#[verifier::external_body]
pub struct ExThreadPool(threadpool::ThreadPool);

/// Relies on threadpool::ThreadPool::with_name: builds a pool of `threads`
/// worker threads carrying the given name. Its builder asserts a positive
/// thread count, so zero is left out.
#[verifier::external_body]
pub(crate) fn new_worker_pool(name: &str, threads: usize) -> (r: threadpool::ThreadPool)
    requires
        threads >= 1,
{
    threadpool::ThreadPool::with_name(name.to_string(), threads)
}

/// The key-material store for genesis and mining identities.
#[derive(Debug, PartialEq, Eq, Structural, Clone, Copy)]
pub struct SecretStore {}

/// The consensus graph subsystem, owned for the process lifetime.
#[derive(Debug, PartialEq, Eq, Structural, Clone, Copy)]
pub struct ConsensusGraph {}

/// The transaction generator subsystem.
#[derive(Debug, PartialEq, Eq, Structural, Clone, Copy)]
pub struct TransactionGenerator {}

/// Handle of a spawned foreground task. Retained, not joined: a task still
/// running at shutdown is abandoned (best effort).
#[derive(Debug, PartialEq, Eq, Structural, Clone, Copy)]
pub struct TaskHandle {}

/// The non-owning reference to the durable storage handle kept for the
/// shutdown check. It never keeps the store alive.
#[derive(Debug, PartialEq, Eq, Structural, Clone, Copy)]
pub struct StorageWeakRef {}

/// The transaction pool, sized at construction.
#[derive(Debug, PartialEq, Eq, Structural, Clone, Copy)]
pub struct TransactionPool {
    pub capacity: u64,
}

/// The data manager: owns the storage manager's caches and the worker pool.
#[derive(Debug)]
pub struct BlockDataManager {
    pub worker_pool: threadpool::ThreadPool,
}

/// The API surface an RPC front end exposes.
#[derive(Debug, PartialEq, Eq, Structural, Clone, Copy)]
pub enum ApiSet {
    /// The full debug API set, for test mode and the loopback endpoint.
    Debug,
    /// The restricted public API set.
    Public,
}

/// A bound RPC front end.
#[derive(Debug, PartialEq, Eq, Structural, Clone, Copy)]
pub struct RpcServer {
    pub api_set: ApiSet,
}

/// The synchronization service: accepts locally produced blocks, in order.
#[derive(Debug, PartialEq)]
pub struct SyncService {
    pub submitted: Vec<BlockRecord>,
}

impl SyncService {
    /// A fresh service: nothing submitted yet.
    pub fn new() -> (r: SyncService)
        ensures
            r.submitted@.len() == 0,
    {
        SyncService { submitted: Vec::new() }
    }

    /// Submit one locally produced block to the service.
    pub fn on_mined_block(&mut self, block: BlockRecord)
        ensures
            final (self).submitted@ == old(self).submitted@.push(block),
    {
        self.submitted.push(block);
    }

    /// How many blocks have been submitted.
    pub fn submitted_count(&self) -> (r: usize)
        ensures
            r == self.submitted@.len(),
    {
        self.submitted.len()
    }
}

/// The block generator: its mining loop runs until `stop` is observed.
#[derive(Debug, PartialEq)]
pub struct BlockGenerator {
    pub author: MinerAddress,
    pub stop_requested: bool,
}

impl BlockGenerator {
    /// A fresh generator mining to `author`, not yet asked to stop.
    pub fn new(author: MinerAddress) -> (r: BlockGenerator)
        ensures
            r.author == author,
            !r.stop_requested,
    {
        BlockGenerator { author, stop_requested: false }
    }

    /// Signal the mining loop to halt. Idempotent.
    pub fn stop(&mut self)
        ensures
            final (self).stop_requested,
            final (self).author == old(self).author,
    {
        self.stop_requested = true;
    }
}

/// What the mining loop does on one pass.
#[derive(Debug, PartialEq, Eq, Structural, Clone, Copy)]
pub enum MiningStep {
    /// Produce one block and go round again.
    Mine,
    /// The stop signal was observed: the loop exits.
    Exit,
}

/// One decision of the mining loop: it exits exactly when the generator's
/// stop signal has been requested, and keeps mining otherwise.
pub fn mining_step(generator: &BlockGenerator) -> (r: MiningStep)
    ensures
        r is Exit <==> generator.stop_requested,
{
    if generator.stop_requested {
        MiningStep::Exit
    } else {
        MiningStep::Mine
    }
}

} // verus!
