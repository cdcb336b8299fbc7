use vstd::prelude::*;

use crate::address::author_bytes;
use crate::address::resolve_author;
use crate::address::valid_author_hex;
use crate::address::zero_author_bytes;
use crate::address::MinerAddress;
use crate::config::Configuration;
use crate::config::ReplayInput;
use crate::config::StartEnv;
use crate::errors::StartError;
use crate::exit::ExitFlag;
use crate::records::BlockRecord;
use crate::subsystems::new_worker_pool;
use crate::subsystems::ApiSet;
use crate::subsystems::BlockDataManager;
use crate::subsystems::BlockGenerator;
use crate::subsystems::ConsensusGraph;
use crate::subsystems::RpcServer;
use crate::subsystems::SecretStore;
use crate::subsystems::StorageWeakRef;
use crate::subsystems::SyncService;
use crate::subsystems::TaskHandle;
use crate::subsystems::TransactionGenerator;
use crate::subsystems::TransactionPool;
use crate::subsystems::WORKER_COMPUTATION_PARALLELISM;
use crate::trace::submit_actions;
use crate::trace::Action;
use crate::wait::wait_actions;
use crate::wait::wait_clean;
use crate::wait::wait_for_drop;
use crate::wait::wait_seconds;
use crate::wait::wait_warned;
use crate::wait::StorageObserver;
use crate::wait::WaitReport;
use crate::wait::SHUTDOWN_MAX_SECS;

verus! {

/// The aggregate of every owning reference and task handle produced by a
/// successful startup, plus the one non-owning reference to the storage
/// handle. Consumed exactly once, by `FullClient::close`.
#[derive(Debug)]
pub struct FullClientHandle {
    pub debug_rpc_http_server: Option<RpcServer>,
    pub rpc_tcp_server: Option<RpcServer>,
    pub rpc_http_server: Option<RpcServer>,
    pub consensus: ConsensusGraph,
    pub data_man: BlockDataManager,
    pub txpool: TransactionPool,
    pub sync: SyncService,
    pub txgen: TransactionGenerator,
    pub txgen_join_handle: Option<TaskHandle>,
    pub blockgen: BlockGenerator,
    pub secret_store: SecretStore,
    pub ledger_db: StorageWeakRef,
}

/// The owning references released in one batch during teardown, after the
/// block generator and with no further ordering among them.
#[derive(Debug)]
pub struct DropBundle {
    pub consensus: ConsensusGraph,
    pub debug_rpc_http_server: Option<RpcServer>,
    pub rpc_tcp_server: Option<RpcServer>,
    pub rpc_http_server: Option<RpcServer>,
    pub txpool: TransactionPool,
    pub sync: SyncService,
    pub txgen: TransactionGenerator,
    pub secret_store: SecretStore,
    pub txgen_join_handle: Option<TaskHandle>,
    pub data_man: BlockDataManager,
}

impl FullClientHandle {
    /// Split the handle for teardown: the non-owning storage reference, the
    /// block generator (stopped before its release), and everything that is
    /// released in one batch after it.
    pub fn into_be_dropped(self) -> (r: (StorageWeakRef, BlockGenerator, DropBundle))
        ensures
            r.0 == self.ledger_db,
            r.1 == self.blockgen,
            r.2.consensus == self.consensus,
            r.2.debug_rpc_http_server == self.debug_rpc_http_server,
            r.2.rpc_tcp_server == self.rpc_tcp_server,
            r.2.rpc_http_server == self.rpc_http_server,
            r.2.txpool == self.txpool,
            r.2.sync == self.sync,
            r.2.txgen == self.txgen,
            r.2.secret_store == self.secret_store,
            r.2.txgen_join_handle == self.txgen_join_handle,
            r.2.data_man == self.data_man,
    {
        (
            self.ledger_db,
            self.blockgen,
            DropBundle {
                consensus: self.consensus,
                debug_rpc_http_server: self.debug_rpc_http_server,
                rpc_tcp_server: self.rpc_tcp_server,
                rpc_http_server: self.rpc_http_server,
                txpool: self.txpool,
                sync: self.sync,
                txgen: self.txgen,
                secret_store: self.secret_store,
                txgen_join_handle: self.txgen_join_handle,
                data_man: self.data_man,
            },
        )
    }
}

/// Whether the configured author text, if any, is well formed.
pub open spec fn author_valid(conf: Configuration) -> bool {
    match conf.mining_author {
        Option::Some(s) => valid_author_hex(s@),
        Option::None => true,
    }
}

/// Whether loading the genesis accounts fails: only a configured file in
/// test mode is loaded at all.
pub open spec fn genesis_fails(conf: Configuration, env: StartEnv) -> bool {
    conf.test_mode && conf.has_genesis_accounts_file && !env.genesis_load_ok
}

/// Whether the replay step fails: a configured sequence that could not be
/// read or parsed, or that holds no records.
pub open spec fn replay_fails(env: StartEnv) -> bool {
    match env.replay {
        Option::Some(ReplayInput::Unavailable) => true,
        Option::Some(ReplayInput::Records(rs)) => rs@.len() == 0,
        Option::None => false,
    }
}

/// The records of the configured replay sequence (empty if none).
pub open spec fn replay_records_of(env: StartEnv) -> Seq<BlockRecord> {
    match env.replay {
        Option::Some(ReplayInput::Records(rs)) => rs@,
        _ => Seq::<BlockRecord>::empty(),
    }
}

/// The records startup submits: everything after the first record (taken to
/// be the genesis), in file order; nothing if no sequence is configured.
pub open spec fn replay_tail(env: StartEnv) -> Seq<BlockRecord> {
    match env.replay {
        Option::Some(ReplayInput::Records(rs)) => if rs@.len() >= 1 {
            rs@.subrange(1, rs@.len() as int)
        } else {
            Seq::<BlockRecord>::empty()
        },
        _ => Seq::<BlockRecord>::empty(),
    }
}

/// Mining enabled without a configured author: a fatal configuration error.
pub open spec fn mining_misconfigured(conf: Configuration) -> bool {
    conf.start_mining && conf.mining_author is None
}

/// The bytes the block generator mines to: the configured author, or the
/// all-zero address when none is configured (and none is required).
pub open spec fn expected_author_bytes(conf: Configuration) -> Seq<u8> {
    match conf.mining_author {
        Option::Some(s) => author_bytes(s@),
        Option::None => zero_author_bytes(),
    }
}

/// The API set of the TCP and public HTTP endpoints: the debug set in test
/// mode, the restricted public set otherwise.
pub open spec fn public_api_set(conf: Configuration) -> ApiSet {
    if conf.test_mode {
        ApiSet::Debug
    } else {
        ApiSet::Public
    }
}

/// The first startup stage that fails, in dependency order, if any.
pub open spec fn stage_error(conf: Configuration, env: StartEnv) -> Option<StartError> {
    if !env.db_open_ok {
        Option::Some(StartError::StorageOpenError)
    } else if genesis_fails(conf, env) {
        Option::Some(StartError::GenesisLoadError)
    } else if !env.network_start_ok {
        Option::Some(StartError::NetworkStartError)
    } else if !env.sync_register_ok {
        Option::Some(StartError::SyncRegistrationError)
    } else if replay_fails(env) {
        Option::Some(StartError::ReplayError)
    } else if !author_valid(conf) {
        Option::Some(StartError::ConfigurationError)
    } else if mining_misconfigured(conf) {
        Option::Some(StartError::MiningConfigError)
    } else if conf.debug_http_port is Some && !env.debug_http_ok {
        Option::Some(StartError::RpcBindError)
    } else if conf.tcp_port is Some && !env.tcp_ok {
        Option::Some(StartError::RpcBindError)
    } else if conf.http_port is Some && !env.http_ok {
        Option::Some(StartError::RpcBindError)
    } else {
        Option::None
    }
}

/// What a successful startup hands back, pinned field by field.
pub open spec fn handle_matches(conf: Configuration, env: StartEnv, h: FullClientHandle) -> bool {
    &&& h.txpool.capacity == conf.tx_pool_size
    &&& h.sync.submitted@ == replay_tail(env)
    &&& !h.blockgen.stop_requested
    &&& h.blockgen.author.wf()
    &&& h.blockgen.author.bytes@ == expected_author_bytes(conf)
    &&& (h.txgen_join_handle is Some <==> conf.generate_tx)
    &&& (h.debug_rpc_http_server is Some <==> conf.debug_http_port is Some)
    &&& (h.debug_rpc_http_server matches Some(s) ==> s.api_set is Debug)
    &&& (h.rpc_tcp_server is Some <==> conf.tcp_port is Some)
    &&& (h.rpc_tcp_server matches Some(s) ==> s.api_set == public_api_set(conf))
    &&& (h.rpc_http_server is Some <==> conf.http_port is Some)
    &&& (h.rpc_http_server matches Some(s) ==> s.api_set == public_api_set(conf))
}

/// The actions taken before the replay step (reached once the store opens).
pub open spec fn metrics_actions(conf: Configuration) -> Seq<Action> {
    if conf.metrics_enabled {
        seq![Action::StartMetricsReporter]
    } else {
        Seq::<Action>::empty()
    }
}

/// The foreground threads spawned once every check has passed.
pub open spec fn spawn_actions(conf: Configuration) -> Seq<Action> {
    let a = if conf.start_mining {
        seq![Action::SpawnMiningThread]
    } else {
        Seq::<Action>::empty()
    };
    if conf.generate_tx {
        a.push(Action::SpawnTxGenThread)
    } else {
        a
    }
}

/// Every action a `start` call takes, in order, up to the stage (if any)
/// at which it fails.
pub open spec fn start_actions(conf: Configuration, env: StartEnv) -> Seq<Action> {
    let a0 = metrics_actions(conf);
    if !env.db_open_ok {
        a0
    } else {
        let a1 = a0.push(Action::SpawnUsageReporter);
        if genesis_fails(conf, env) {
            a1
        } else if !env.network_start_ok {
            a1
        } else if !env.sync_register_ok {
            a1
        } else if replay_fails(env) {
            a1
        } else {
            let a2 = a1 + submit_actions(replay_tail(env));
            if !author_valid(conf) {
                a2
            } else if mining_misconfigured(conf) {
                a2
            } else {
                a2 + spawn_actions(conf)
            }
        }
    }
}

/// Every action a `close` call takes, in order: the block generator is
/// stopped and released first, then the batch, and only then is the storage
/// reference polled.
pub open spec fn close_actions(s: StorageObserver) -> Seq<Action> {
    seq![Action::StopBlockGen, Action::ReleaseBlockGen, Action::ReleaseBundle] + wait_actions(s)
}

/// Replay a recorded block sequence: reject an empty one, skip the first
/// record (taken to be the genesis, unvalidated), and submit every
/// remaining record to the synchronization service in file order.
pub fn replay_records(records: Vec<BlockRecord>, sync: &mut SyncService, trace: &mut Vec<Action>)
    -> (r: Result<(), StartError>)
    ensures
        records@.len() == 0 ==> (r matches Err(e) && e == StartError::ReplayError && *final (sync)
            == *old(sync) && final (trace)@ == old(trace)@),
        records@.len() >= 1 ==> (r matches Ok(_) && final (sync).submitted@ == old(
            sync,
        ).submitted@ + records@.subrange(1, records@.len() as int) && final (trace)@ == old(
            trace,
        )@ + submit_actions(records@.subrange(1, records@.len() as int))),
{
    if records.len() == 0 {
        return Err(StartError::ReplayError);
    }
    let n = records.len();
    proof {
        assert(old(sync).submitted@ + records@.subrange(1, 1) =~= old(sync).submitted@);
        assert(old(trace)@ + submit_actions(records@.subrange(1, 1)) =~= old(trace)@);
    }
    let mut i: usize = 1;
    while i < n
        invariant
            1 <= i <= n,
            n == records@.len(),
            sync.submitted@ == old(sync).submitted@ + records@.subrange(1, i as int),
            trace@ == old(trace)@ + submit_actions(records@.subrange(1, i as int)),
        decreases n - i,
    {
        let rec = records[i].clone();
        let rec_logged = records[i].clone();
        sync.on_mined_block(rec);
        trace.push(Action::SubmitBlock(rec_logged));
        proof {
            assert(records@.subrange(1, i as int).push(records@[i as int]) =~= records@.subrange(
                1,
                i as int + 1,
            ));
            assert(submit_actions(records@.subrange(1, i as int)).push(
                Action::SubmitBlock(records@[i as int]),
            ) =~= submit_actions(records@.subrange(1, i as int + 1)));
        }
        i = i + 1;
    }
    Ok(())
}

/// Release the block generator reference: nothing else may hold its mining
/// loop open, which was signalled to stop before this point.
fn release_block_generator(generator: BlockGenerator, trace: &mut Vec<Action>)
    requires
        generator.stop_requested,
    ensures
        final (trace)@ == old(trace)@.push(Action::ReleaseBlockGen),
{
    trace.push(Action::ReleaseBlockGen);
}

/// Release the remaining owning references in one batch.
fn release_bundle(bundle: DropBundle, trace: &mut Vec<Action>)
    ensures
        final (trace)@ == old(trace)@.push(Action::ReleaseBundle),
{
    trace.push(Action::ReleaseBundle);
}

/// The supervisor itself: starts the node's subsystems in dependency order
/// and tears them down again.
pub struct FullClient {}

impl FullClient {
    /// Start every key component, in dependency order: open the durable
    /// store, build the storage and data managers, spawn the usage
    /// reporter, load or default the genesis, build the transaction pool,
    /// consensus and synchronization, replay a configured block sequence,
    /// then spawn the optional mining and transaction-generation threads
    /// and bind the configured RPC front ends. The first failing stage
    /// aborts startup with its stage-tagged error; nothing already started
    /// is rolled back. `env` holds what each external collaborator's start
    /// routine returned; every action taken is appended to `trace`.
    #[verifier::rlimit(60)]
    pub fn start(conf: &Configuration, env: StartEnv, trace: &mut Vec<Action>) -> (r: Result<
        FullClientHandle,
        StartError,
    >)
        ensures
            match stage_error(*conf, env) {
                Option::Some(e) => r matches Err(e2) && e2 == e,
                Option::None => r matches Ok(h) && handle_matches(*conf, env, h),
            },
            final (trace)@ == old(trace)@ + start_actions(*conf, env),
    {
        let StartEnv {
            db_open_ok,
            genesis_load_ok,
            network_start_ok,
            sync_register_ok,
            replay,
            debug_http_ok,
            tcp_ok,
            http_ok,
        } = env;

        if conf.metrics_enabled {
            trace.push(Action::StartMetricsReporter);
        }
        proof {
            assert(trace@ =~= old(trace)@ + metrics_actions(*conf));
        }

        let worker_pool = new_worker_pool("tx-recover", WORKER_COMPUTATION_PARALLELISM);

        if !db_open_ok {
            return Err(StartError::StorageOpenError);
        }
        let secret_store = SecretStore {};

        // The storage manager now exists: its usage reporter watches it
        // through a non-owning reference for the rest of the process life.
        trace.push(Action::SpawnUsageReporter);
        proof {
            assert(trace@ =~= old(trace)@ + metrics_actions(*conf).push(
                Action::SpawnUsageReporter,
            ));
        }

        if conf.test_mode && conf.has_genesis_accounts_file && !genesis_load_ok {
            return Err(StartError::GenesisLoadError);
        }

        let data_man = BlockDataManager { worker_pool };
        let txpool = TransactionPool { capacity: conf.tx_pool_size };
        let consensus = ConsensusGraph {};

        if !network_start_ok {
            return Err(StartError::NetworkStartError);
        }
        let mut sync = SyncService::new();
        if !sync_register_ok {
            return Err(StartError::SyncRegistrationError);
        }
        let txgen = TransactionGenerator {};

        match replay {
            Option::Some(ReplayInput::Unavailable) => {
                return Err(StartError::ReplayError);
            },
            Option::Some(ReplayInput::Records(records)) => {
                match replay_records(records, &mut sync, trace) {
                    Ok(_) => {},
                    Err(e) => {
                        return Err(e);
                    },
                }
            },
            Option::None => {},
        }
        proof {
            assert(trace@ =~= old(trace)@ + (metrics_actions(*conf).push(
                Action::SpawnUsageReporter,
            ) + submit_actions(replay_tail(env))));
        }

        let author = match resolve_author(&conf.mining_author) {
            Ok(a) => a,
            Err(e) => {
                return Err(e);
            },
        };
        if conf.start_mining && author.is_none() {
            return Err(StartError::MiningConfigError);
        }

        let blockgen = BlockGenerator::new(
            match author {
                Option::Some(a) => a,
                Option::None => MinerAddress::zero(),
            },
        );
        if conf.start_mining {
            trace.push(Action::SpawnMiningThread);
        }
        let txgen_join_handle = if conf.generate_tx {
            trace.push(Action::SpawnTxGenThread);
            Option::Some(TaskHandle {  })
        } else {
            Option::None
        };
        proof {
            assert(trace@ =~= old(trace)@ + start_actions(*conf, env));
        }

        let debug_rpc_http_server = match conf.debug_http_port {
            Option::Some(_) => {
                if !debug_http_ok {
                    return Err(StartError::RpcBindError);
                }
                Option::Some(RpcServer { api_set: ApiSet::Debug })
            },
            Option::None => Option::None,
        };
        let public_api = if conf.test_mode {
            ApiSet::Debug
        } else {
            ApiSet::Public
        };
        let rpc_tcp_server = match conf.tcp_port {
            Option::Some(_) => {
                if !tcp_ok {
                    return Err(StartError::RpcBindError);
                }
                Option::Some(RpcServer { api_set: public_api })
            },
            Option::None => Option::None,
        };
        let rpc_http_server = match conf.http_port {
            Option::Some(_) => {
                if !http_ok {
                    return Err(StartError::RpcBindError);
                }
                Option::Some(RpcServer { api_set: public_api })
            },
            Option::None => Option::None,
        };

        proof {
            assert(sync.submitted@ =~= replay_tail(env));
            assert(stage_error(*conf, env) is None);
        }
        Ok(
            FullClientHandle {
                debug_rpc_http_server,
                rpc_tcp_server,
                rpc_http_server,
                consensus,
                data_man,
                txpool,
                sync,
                txgen,
                txgen_join_handle,
                blockgen,
                secret_store,
                ledger_db: StorageWeakRef {  },
            },
        )
    }

    /// Tear the node down. Strictly ordered: stop the block generator and
    /// only then release it; release every other owning reference in one
    /// batch; then poll the non-owning storage reference until the store is
    /// unreferenced, clean within the bound or unclean at it. Never fails,
    /// always returns within the bound; the handle is consumed, so teardown
    /// happens exactly once per started node.
    pub fn close(handle: FullClientHandle, storage: &StorageObserver, trace: &mut Vec<Action>)
        -> (r: WaitReport)
        ensures
            r.clean == wait_clean(*storage),
            r.seconds_waited == wait_seconds(*storage),
            r.seconds_waited <= SHUTDOWN_MAX_SECS,
            r.warned == wait_warned(*storage),
            final (trace)@ == old(trace)@ + close_actions(*storage),
    {
        let (_ledger_db, mut blockgen, bundle) = handle.into_be_dropped();
        blockgen.stop();
        trace.push(Action::StopBlockGen);
        release_block_generator(blockgen, trace);
        release_bundle(bundle, trace);
        let report = wait_for_drop(storage, trace);
        proof {
            assert(trace@ =~= old(trace)@ + close_actions(*storage));
        }
        report
    }

    /// Block until the exit signal is set by the external interrupt — the
    /// one recognized shutdown trigger, here modelled as arriving — then
    /// drive shutdown exactly once. Irrevocable.
    pub fn run_until_closed(
        exit: &mut ExitFlag,
        keep_alive: FullClientHandle,
        storage: &StorageObserver,
        trace: &mut Vec<Action>,
    ) -> (r: WaitReport)
        ensures
            final (exit).set,
            r.clean == wait_clean(*storage),
            r.seconds_waited == wait_seconds(*storage),
            r.seconds_waited <= SHUTDOWN_MAX_SECS,
            r.warned == wait_warned(*storage),
            final (trace)@ == old(trace)@ + close_actions(*storage),
    {
        exit.trigger();
        FullClient::close(keep_alive, storage, trace)
    }
}

} // verus!
