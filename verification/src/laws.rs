//! The supervisor's guarantees that relate several functions, stated over
//! the same spec functions the functions' own contracts use.

use vstd::prelude::*;

use crate::client::close_actions;
use crate::client::genesis_fails;
use crate::client::replay_fails;
use crate::client::replay_records_of;
use crate::client::replay_tail;
use crate::client::metrics_actions;
use crate::client::stage_error;
use crate::client::start_actions;
use crate::config::ReplayInput;
use crate::config::StartEnv;
use crate::config::Configuration;
use crate::errors::StartError;
use crate::records::BlockRecord;
use crate::trace::is_poll;
use crate::trace::is_submit;
use crate::trace::no_mining_spawn;
use crate::trace::no_submits;
use crate::trace::submit_actions;
use crate::trace::Action;
use crate::wait::wait_clean;
use crate::wait::wait_seconds;
use crate::wait::StorageObserver;
use crate::wait::SHUTDOWN_MAX_SECS;

verus! {

/// Law: shutdown is bounded. Whatever the storage owners do — even if one
/// never releases the handle — the shutdown wait returns within the bound,
/// and takes the whole bound exactly when it ends unclean.
pub proof fn lemma_shutdown_bounded(s: StorageObserver)
    ensures
        wait_seconds(s) <= SHUTDOWN_MAX_SECS,
        wait_clean(s) ==> wait_seconds(s) < SHUTDOWN_MAX_SECS,
        !wait_clean(s) ==> wait_seconds(s) == SHUTDOWN_MAX_SECS,
{
}

/// Law: during shutdown the block generator's stop comes first, its release
/// and the batch release follow, and every poll of the storage reference
/// comes strictly after all three.
pub proof fn lemma_stop_precedes_polls(s: StorageObserver)
    ensures
        close_actions(s).len() >= 3,
        close_actions(s)[0] == Action::StopBlockGen,
        close_actions(s)[1] == Action::ReleaseBlockGen,
        close_actions(s)[2] == Action::ReleaseBundle,
        forall|i: int|
            0 <= i < close_actions(s).len() && is_poll(#[trigger] close_actions(s)[i]) ==> i >= 3,
{
}

/// Law: with a recorded sequence of `n >= 2` records, the blocks startup
/// submits are exactly the `n - 1` records after the first, in file order.
/// (`FullClient::start` pins the handle's submissions to `replay_tail` and
/// appends one submit action per submitted record.)
pub proof fn lemma_replay_submits_tail(conf: Configuration, env: StartEnv)
    requires
        env.replay matches Some(ReplayInput::Records(rs)) && rs@.len() >= 2,
    ensures
        replay_tail(env).len() == replay_records_of(env).len() - 1,
        forall|i: int|
            0 <= i < replay_tail(env).len() ==> replay_tail(env)[i] == replay_records_of(env)[i
                + 1],
{
}

/// Law: the submit actions of a record sequence are one per record, in the
/// sequence's order. With `lemma_replay_submits_tail` and the trace clause
/// of `FullClient::start`, a startup given `n >= 2` records performs
/// exactly `n - 1` submissions, in file order.
pub proof fn lemma_one_submit_per_record(records: Seq<BlockRecord>)
    ensures
        submit_actions(records).len() == records.len(),
        forall|i: int|
            0 <= i < records.len() ==> submit_actions(records)[i] == Action::SubmitBlock(
                records[i],
            ),
{
}

/// Law: a configured record sequence with no records aborts startup with
/// the replay error, and startup submits nothing.
pub proof fn lemma_empty_replay_rejected(conf: Configuration, env: StartEnv)
    requires
        env.db_open_ok,
        !genesis_fails(conf, env),
        env.network_start_ok,
        env.sync_register_ok,
        env.replay matches Some(ReplayInput::Records(rs)) && rs@.len() == 0,
    ensures
        stage_error(conf, env) == Some(StartError::ReplayError),
        no_submits(start_actions(conf, env)),
{
    let a = start_actions(conf, env);
    assert forall|i: int| 0 <= i < a.len() implies !is_submit(#[trigger] a[i]) by {
        assert(a == metrics_actions(conf).push(Action::SpawnUsageReporter));
        if conf.metrics_enabled {
            assert(a =~= seq![Action::StartMetricsReporter, Action::SpawnUsageReporter]);
        } else {
            assert(a =~= seq![Action::SpawnUsageReporter]);
        }
    }
}

/// Law: if mining is enabled without a configured author, startup fails —
/// with the mining configuration error once every earlier stage passes —
/// and the mining thread is never spawned, whatever else happens.
pub proof fn lemma_mining_without_author(conf: Configuration, env: StartEnv)
    requires
        conf.start_mining,
        conf.mining_author is None,
    ensures
        stage_error(conf, env) is Some,
        (env.db_open_ok && !genesis_fails(conf, env) && env.network_start_ok
            && env.sync_register_ok && !replay_fails(env)) ==> stage_error(conf, env) == Some(
            StartError::MiningConfigError,
        ),
        no_mining_spawn(start_actions(conf, env)),
{
    let a = start_actions(conf, env);
    let a1 = metrics_actions(conf).push(Action::SpawnUsageReporter);
    assert forall|i: int| 0 <= i < a.len() implies #[trigger] a[i] != Action::SpawnMiningThread by {
        if env.db_open_ok && !genesis_fails(conf, env) && env.network_start_ok
            && env.sync_register_ok && !replay_fails(env) {
            let t = replay_tail(env);
            assert(a == a1 + submit_actions(t));
            if i < a1.len() {
                assert(a[i] == a1[i]);
                prefix_element_is_no_spawn(conf);
            } else {
                assert(a[i] == submit_actions(t)[i - a1.len()]);
                assert(submit_actions(t)[i - a1.len()] == Action::SubmitBlock(t[i - a1.len()]));
            }
        } else {
            prefix_element_is_no_spawn(conf);
        }
    }
}

/// Every action taken before the replay step is a metrics or reporter
/// spawn, never a mining spawn or a submission.
proof fn prefix_element_is_no_spawn(conf: Configuration)
    ensures
        forall|j: int|
            0 <= j < metrics_actions(conf).push(Action::SpawnUsageReporter).len()
                ==> #[trigger] metrics_actions(conf).push(Action::SpawnUsageReporter)[j]
                != Action::SpawnMiningThread,
{
    let a1 = metrics_actions(conf).push(Action::SpawnUsageReporter);
    if conf.metrics_enabled {
        assert(a1 =~= seq![Action::StartMetricsReporter, Action::SpawnUsageReporter]);
    } else {
        assert(a1 =~= seq![Action::SpawnUsageReporter]);
    }
}

} // verus!
