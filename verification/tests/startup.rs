use full_client::client::FullClient;
use full_client::config::Configuration;
use full_client::config::StartEnv;
use full_client::errors::StartError;
use full_client::subsystems::ApiSet;
use full_client::trace::Action;

fn base_conf() -> Configuration {
    Configuration {
        test_mode: false,
        metrics_enabled: false,
        has_genesis_accounts_file: false,
        tx_pool_size: 500000,
        start_mining: false,
        mining_author: None,
        generate_tx: false,
        debug_http_port: None,
        tcp_port: None,
        http_port: None,
    }
}

fn all_ok_env() -> StartEnv {
    StartEnv {
        db_open_ok: true,
        genesis_load_ok: true,
        network_start_ok: true,
        sync_register_ok: true,
        replay: None,
        debug_http_ok: true,
        tcp_ok: true,
        http_ok: true,
    }
}

#[test]
fn start_minimal_succeeds() {
    let conf = base_conf();
    let mut trace: Vec<Action> = Vec::new();
    let handle = FullClient::start(&conf, all_ok_env(), &mut trace).unwrap();
    assert_eq!(handle.txpool.capacity, 500000);
    assert_eq!(handle.sync.submitted.len(), 0);
    assert!(handle.debug_rpc_http_server.is_none());
    assert!(handle.rpc_tcp_server.is_none());
    assert!(handle.rpc_http_server.is_none());
    assert!(handle.txgen_join_handle.is_none());
    assert!(!handle.blockgen.stop_requested);
    assert_eq!(trace, vec![Action::SpawnUsageReporter]);
}

#[test]
fn start_metrics_reporter_comes_first() {
    let mut conf = base_conf();
    conf.metrics_enabled = true;
    let mut trace: Vec<Action> = Vec::new();
    FullClient::start(&conf, all_ok_env(), &mut trace).unwrap();
    assert_eq!(
        trace,
        vec![Action::StartMetricsReporter, Action::SpawnUsageReporter]
    );
}

#[test]
fn rpc_front_ends_follow_configuration() {
    let mut conf = base_conf();
    conf.debug_http_port = Some(12537);
    conf.tcp_port = Some(12536);
    conf.http_port = Some(12538);
    let handle = FullClient::start(&conf, all_ok_env(), &mut Vec::new()).unwrap();
    assert_eq!(handle.debug_rpc_http_server.unwrap().api_set, ApiSet::Debug);
    assert_eq!(handle.rpc_tcp_server.unwrap().api_set, ApiSet::Public);
    assert_eq!(handle.rpc_http_server.unwrap().api_set, ApiSet::Public);
}

#[test]
fn rpc_front_ends_expose_debug_apis_in_test_mode() {
    let mut conf = base_conf();
    conf.test_mode = true;
    conf.tcp_port = Some(12536);
    conf.http_port = Some(12538);
    let handle = FullClient::start(&conf, all_ok_env(), &mut Vec::new()).unwrap();
    assert_eq!(handle.rpc_tcp_server.unwrap().api_set, ApiSet::Debug);
    assert_eq!(handle.rpc_http_server.unwrap().api_set, ApiSet::Debug);
}

#[test]
fn storage_open_failure_is_fatal() {
    let mut env = all_ok_env();
    env.db_open_ok = false;
    let r = FullClient::start(&base_conf(), env, &mut Vec::new());
    assert_eq!(r.unwrap_err(), StartError::StorageOpenError);
}

#[test]
fn genesis_load_failure_is_fatal_in_test_mode() {
    let mut conf = base_conf();
    conf.test_mode = true;
    conf.has_genesis_accounts_file = true;
    let mut env = all_ok_env();
    env.genesis_load_ok = false;
    let r = FullClient::start(&conf, env, &mut Vec::new());
    assert_eq!(r.unwrap_err(), StartError::GenesisLoadError);
}

#[test]
fn genesis_file_is_ignored_outside_test_mode() {
    let mut conf = base_conf();
    conf.has_genesis_accounts_file = true;
    let mut env = all_ok_env();
    env.genesis_load_ok = false;
    assert!(FullClient::start(&conf, env, &mut Vec::new()).is_ok());
}

#[test]
fn network_start_failure_is_fatal() {
    let mut env = all_ok_env();
    env.network_start_ok = false;
    let r = FullClient::start(&base_conf(), env, &mut Vec::new());
    assert_eq!(r.unwrap_err(), StartError::NetworkStartError);
}

#[test]
fn sync_registration_failure_is_fatal() {
    let mut env = all_ok_env();
    env.sync_register_ok = false;
    let r = FullClient::start(&base_conf(), env, &mut Vec::new());
    assert_eq!(r.unwrap_err(), StartError::SyncRegistrationError);
}

#[test]
fn rpc_bind_failure_is_fatal() {
    let mut conf = base_conf();
    conf.tcp_port = Some(12536);
    let mut env = all_ok_env();
    env.tcp_ok = false;
    let r = FullClient::start(&conf, env, &mut Vec::new());
    assert_eq!(r.unwrap_err(), StartError::RpcBindError);
}

#[test]
fn unconfigured_rpc_port_never_binds() {
    // A failing bind outcome is irrelevant while no port is configured.
    let mut env = all_ok_env();
    env.debug_http_ok = false;
    env.tcp_ok = false;
    env.http_ok = false;
    assert!(FullClient::start(&base_conf(), env, &mut Vec::new()).is_ok());
}

#[test]
fn mining_without_author_is_rejected_before_spawn() {
    let mut conf = base_conf();
    conf.start_mining = true;
    let mut trace: Vec<Action> = Vec::new();
    let r = FullClient::start(&conf, all_ok_env(), &mut trace);
    assert_eq!(r.unwrap_err(), StartError::MiningConfigError);
    assert!(trace.iter().all(|a| *a != Action::SpawnMiningThread));
}

#[test]
fn mining_with_author_spawns_the_mining_thread() {
    let mut conf = base_conf();
    conf.start_mining = true;
    conf.mining_author = Some("00112233445566778899aabbccddeeff00112233".to_string());
    let mut trace: Vec<Action> = Vec::new();
    let handle = FullClient::start(&conf, all_ok_env(), &mut trace).unwrap();
    assert!(trace.contains(&Action::SpawnMiningThread));
    assert_eq!(
        handle.blockgen.author.bytes,
        vec![
            0x00, 0x11, 0x22, 0x33, 0x44, 0x55, 0x66, 0x77, 0x88, 0x99, 0xaa, 0xbb, 0xcc, 0xdd,
            0xee, 0xff, 0x00, 0x11, 0x22, 0x33
        ]
    );
}

#[test]
fn malformed_author_is_a_configuration_error() {
    let mut conf = base_conf();
    conf.mining_author = Some("0x112233445566778899aabbccddeeff0011223".to_string());
    let r = FullClient::start(&conf, all_ok_env(), &mut Vec::new());
    assert_eq!(r.unwrap_err(), StartError::ConfigurationError);
}

#[test]
fn absent_author_defaults_to_the_zero_address() {
    let handle = FullClient::start(&base_conf(), all_ok_env(), &mut Vec::new()).unwrap();
    assert_eq!(handle.blockgen.author.bytes, vec![0u8; 20]);
}

#[test]
fn txgen_thread_is_spawned_only_when_enabled() {
    let mut conf = base_conf();
    conf.generate_tx = true;
    let mut trace: Vec<Action> = Vec::new();
    let handle = FullClient::start(&conf, all_ok_env(), &mut trace).unwrap();
    assert!(handle.txgen_join_handle.is_some());
    assert!(trace.contains(&Action::SpawnTxGenThread));
}

#[test]
fn error_descriptions_name_the_stage() {
    assert_eq!(
        StartError::MiningConfigError.describe(),
        "mining was enabled without a configured miner address"
    );
    assert_eq!(
        StartError::ReplayError.describe(),
        "the recorded block sequence was unreadable, unparsable or empty"
    );
}
