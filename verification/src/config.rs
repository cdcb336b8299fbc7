use vstd::prelude::*;

use crate::records::BlockRecord;

verus! {

/// Static configuration of the node, reduced to the values the supervisor
/// reads. Parsing and validating the raw configuration file is the entry
/// point's business, not this library's.
#[derive(Debug)]
pub struct Configuration {
    /// Test mode exposes the debug API set and allows a genesis file.
    pub test_mode: bool,
    /// Whether the periodic metrics reporter is started.
    pub metrics_enabled: bool,
    /// Whether a genesis account file is configured (read in test mode only).
    pub has_genesis_accounts_file: bool,
    /// Capacity handed to the transaction pool.
    pub tx_pool_size: u64,
    /// Whether the dedicated mining thread is spawned.
    pub start_mining: bool,
    /// The miner's reward address, as 40 hexadecimal digits, if configured.
    pub mining_author: Option<String>,
    /// Whether the dedicated transaction-generation thread is spawned.
    pub generate_tx: bool,
    /// Port of the loopback-only debug HTTP endpoint, if bound.
    pub debug_http_port: Option<u16>,
    /// Port of the TCP endpoint, if bound.
    pub tcp_port: Option<u16>,
    /// Port of the public HTTP endpoint, if bound.
    pub http_port: Option<u16>,
}

/// Whether a recorded block sequence was configured, and what reading it
/// gave. Reading and parsing the file happen at the process edge; the
/// supervisor only judges the outcome.
#[derive(Debug, PartialEq)]
pub enum ReplayInput {
    /// The configured file could not be read or parsed.
    Unavailable,
    /// The records of the file, in file order.
    Records(Vec<BlockRecord>),
}

/// The outcome at the boundary of each fallible external collaborator
/// consulted during startup: what each stage's start routine returns.
#[derive(Debug, PartialEq)]
pub struct StartEnv {
    /// The durable store opened.
    pub db_open_ok: bool,
    /// The configured genesis account file loaded (consulted in test mode
    /// with a file configured; ignored otherwise).
    pub genesis_load_ok: bool,
    /// The network layer started.
    pub network_start_ok: bool,
    /// The synchronization protocol registered with the network layer.
    pub sync_register_ok: bool,
    /// The recorded block sequence, if one was configured.
    pub replay: Option<ReplayInput>,
    /// The loopback debug HTTP endpoint bound (if a port is configured).
    pub debug_http_ok: bool,
    /// The TCP endpoint bound (if a port is configured).
    pub tcp_ok: bool,
    /// The public HTTP endpoint bound (if a port is configured).
    pub http_ok: bool,
}

} // verus!
