use full_client::client::FullClient;
use full_client::config::Configuration;
use full_client::config::StartEnv;
use full_client::exit::ExitFlag;
use full_client::reporter::reporter_run;
use full_client::reporter::reporter_step;
use full_client::reporter::ReporterDecision;
use full_client::reporter::ReporterObservation;
use full_client::reporter::SignalWait;
use full_client::reporter::TargetState;
use full_client::subsystems::mining_step;
use full_client::subsystems::MiningStep;
use full_client::trace::Action;
use full_client::wait::wait_step;
use full_client::wait::StorageObserver;
use full_client::wait::WaitStep;

fn started_handle() -> full_client::client::FullClientHandle {
    let conf = Configuration {
        test_mode: false,
        metrics_enabled: false,
        has_genesis_accounts_file: false,
        tx_pool_size: 500000,
        start_mining: false,
        mining_author: None,
        generate_tx: false,
        debug_http_port: None,
        tcp_port: None,
        http_port: None,
    };
    let env = StartEnv {
        db_open_ok: true,
        genesis_load_ok: true,
        network_start_ok: true,
        sync_register_ok: true,
        replay: None,
        debug_http_ok: true,
        tcp_ok: true,
        http_ok: true,
    };
    FullClient::start(&conf, env, &mut Vec::new()).unwrap()
}

#[test]
fn close_is_clean_when_the_store_is_released_quickly() {
    let storage = StorageObserver { released_at: Some(3) };
    let mut trace: Vec<Action> = Vec::new();
    let report = FullClient::close(started_handle(), &storage, &mut trace);
    assert!(report.clean);
    assert_eq!(report.seconds_waited, 3);
    assert!(!report.warned);
    // Stop comes first, both releases next, and only then any poll.
    assert_eq!(trace[0], Action::StopBlockGen);
    assert_eq!(trace[1], Action::ReleaseBlockGen);
    assert_eq!(trace[2], Action::ReleaseBundle);
    let polls: Vec<usize> = trace
        .iter()
        .enumerate()
        .filter(|(_, a)| matches!(a, Action::PollStorage(_)))
        .map(|(i, _)| i)
        .collect();
    assert_eq!(polls, vec![3, 4, 5, 6]);
}

#[test]
fn close_warns_once_when_shutdown_is_slow() {
    let storage = StorageObserver { released_at: Some(15) };
    let mut trace: Vec<Action> = Vec::new();
    let report = FullClient::close(started_handle(), &storage, &mut trace);
    assert!(report.clean);
    assert!(report.warned);
    assert_eq!(report.seconds_waited, 15);
    let warns = trace
        .iter()
        .filter(|a| **a == Action::WarnSlowShutdown)
        .count();
    assert_eq!(warns, 1);
    assert!(!trace.contains(&Action::WarnUncleanShutdown));
}

#[test]
fn close_returns_unclean_at_the_bound_when_a_reference_leaks() {
    let storage = StorageObserver { released_at: None };
    let mut trace: Vec<Action> = Vec::new();
    let report = FullClient::close(started_handle(), &storage, &mut trace);
    assert!(!report.clean);
    assert!(report.warned);
    assert_eq!(report.seconds_waited, 60);
    assert_eq!(trace.last().unwrap(), &Action::WarnUncleanShutdown);
}

#[test]
fn close_is_unclean_when_the_store_outlives_the_bound() {
    let storage = StorageObserver { released_at: Some(120) };
    let report = FullClient::close(started_handle(), &storage, &mut Vec::new());
    assert!(!report.clean);
    assert_eq!(report.seconds_waited, 60);
}

#[test]
fn close_is_clean_immediately_when_nothing_holds_the_store() {
    let storage = StorageObserver { released_at: Some(0) };
    let report = FullClient::close(started_handle(), &storage, &mut Vec::new());
    assert!(report.clean);
    assert_eq!(report.seconds_waited, 0);
    assert!(!report.warned);
}

#[test]
fn wait_step_decides_like_the_wait_loop() {
    assert_eq!(wait_step(0, false, false), WaitStep::CleanExit);
    assert_eq!(wait_step(5, false, true), WaitStep::Sleep);
    assert_eq!(wait_step(11, false, true), WaitStep::Warn);
    assert_eq!(wait_step(11, true, true), WaitStep::Sleep);
    assert_eq!(wait_step(60, false, true), WaitStep::UncleanExit);
}

#[test]
fn exit_flag_is_set_once_and_stays_set() {
    let mut exit = ExitFlag::new();
    assert!(!exit.is_set());
    exit.trigger();
    assert!(exit.is_set());
    let after_first = exit;
    exit.trigger();
    assert!(exit.is_set());
    assert_eq!(exit, after_first);
}

#[test]
fn reporter_emits_only_after_a_quiet_interval_with_a_live_target() {
    assert_eq!(
        reporter_step(SignalWait::TimedOut, TargetState::Alive),
        ReporterDecision::EmitSnapshot
    );
    assert_eq!(
        reporter_step(SignalWait::TimedOut, TargetState::Gone),
        ReporterDecision::Terminate
    );
    assert_eq!(
        reporter_step(SignalWait::Signalled, TargetState::Alive),
        ReporterDecision::Terminate
    );
    assert_eq!(
        reporter_step(SignalWait::Signalled, TargetState::Gone),
        ReporterDecision::Terminate
    );
}

#[test]
fn reporter_stops_within_one_interval_of_target_destruction() {
    let alive = ReporterObservation { wait: SignalWait::TimedOut, target: TargetState::Alive };
    let gone = ReporterObservation { wait: SignalWait::TimedOut, target: TargetState::Gone };
    let observations = vec![alive, alive, gone, alive, alive];
    let report = reporter_run(&observations);
    assert_eq!(report.snapshots, 2);
    assert_eq!(report.intervals, 3);
}

#[test]
fn reporter_stops_at_once_on_the_exit_signal() {
    let signalled =
        ReporterObservation { wait: SignalWait::Signalled, target: TargetState::Alive };
    let report = reporter_run(&vec![signalled, signalled]);
    assert_eq!(report.snapshots, 0);
    assert_eq!(report.intervals, 1);
}

#[test]
fn reporter_keeps_reporting_while_undisturbed() {
    let alive = ReporterObservation { wait: SignalWait::TimedOut, target: TargetState::Alive };
    let report = reporter_run(&vec![alive; 7]);
    assert_eq!(report.snapshots, 7);
    assert_eq!(report.intervals, 7);
}

#[test]
fn mining_loop_exits_exactly_when_stop_is_observed() {
    let mut handle = started_handle();
    assert_eq!(mining_step(&handle.blockgen), MiningStep::Mine);
    handle.blockgen.stop();
    assert_eq!(mining_step(&handle.blockgen), MiningStep::Exit);
}

#[test]
fn into_be_dropped_splits_the_handle_for_ordered_teardown() {
    let handle = started_handle();
    let expected_capacity = handle.txpool.capacity;
    let (_ledger_db, blockgen, bundle) = handle.into_be_dropped();
    assert!(!blockgen.stop_requested);
    assert_eq!(bundle.txpool.capacity, expected_capacity);
    assert_eq!(bundle.sync.submitted.len(), 0);
}

#[test]
fn run_until_closed_sets_the_flag_and_closes_once() {
    let mut exit = ExitFlag::new();
    let storage = StorageObserver { released_at: Some(1) };
    let mut trace: Vec<Action> = Vec::new();
    let report =
        FullClient::run_until_closed(&mut exit, started_handle(), &storage, &mut trace);
    assert!(exit.is_set());
    assert!(report.clean);
    assert_eq!(trace[0], Action::StopBlockGen);
}
