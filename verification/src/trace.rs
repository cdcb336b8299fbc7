use vstd::prelude::*;

use crate::records::BlockRecord;

verus! {

/// One observable action of the supervisor, recorded in the order taken:
/// task spawns, block submissions, releases, and shutdown polling.
#[derive(Debug, PartialEq)]
pub enum Action {
    /// The periodic metrics reporter was started.
    StartMetricsReporter,
    /// The background usage reporter was spawned.
    SpawnUsageReporter,
    /// One recorded block was submitted to the synchronization service.
    SubmitBlock(BlockRecord),
    /// The dedicated mining thread was spawned.
    SpawnMiningThread,
    /// The dedicated transaction-generation thread was spawned.
    SpawnTxGenThread,
    /// The block generator was signalled to halt its mining loop.
    StopBlockGen,
    /// The block generator reference was released.
    ReleaseBlockGen,
    /// The remaining owning references were released in one batch.
    ReleaseBundle,
    /// The non-owning storage reference was polled at this second.
    PollStorage(u64),
    /// Shutdown passed the warning threshold while the store was still held.
    WarnSlowShutdown,
    /// Shutdown gave up waiting: the process exits uncleanly.
    WarnUncleanShutdown,
}

/// Whether an action is a block submission.
pub open spec fn is_submit(a: Action) -> bool {
    a matches Action::SubmitBlock(_)
}

/// Whether an action is a poll of the storage reference.
pub open spec fn is_poll(a: Action) -> bool {
    a matches Action::PollStorage(_)
}

/// The submissions of a sequence of records, in order.
pub open spec fn submit_actions(records: Seq<BlockRecord>) -> Seq<Action> {
    records.map(|i: int, r: BlockRecord| Action::SubmitBlock(r))
}

/// No action of `t` submits a block.
pub open spec fn no_submits(t: Seq<Action>) -> bool {
    forall|i: int| 0 <= i < t.len() ==> !is_submit(#[trigger] t[i])
}

/// No action of `t` spawns the mining thread.
pub open spec fn no_mining_spawn(t: Seq<Action>) -> bool {
    forall|i: int| 0 <= i < t.len() ==> #[trigger] t[i] != Action::SpawnMiningThread
}

} // verus!
