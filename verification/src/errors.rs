use vstd::prelude::*;

verus! {

/// Stage-tagged fatal startup errors. `start` returns at most one of these;
/// a failed startup is not rolled back and its handle must not be closed.
#[derive(Clone, Copy, PartialEq, Eq, Structural, Debug)]
pub enum StartError {
    /// A configured value could not be parsed (malformed miner address).
    ConfigurationError,
    /// The durable store could not be opened.
    StorageOpenError,
    /// The genesis account file was configured but could not be loaded.
    GenesisLoadError,
    /// The recorded block sequence was unreadable, unparsable or empty.
    ReplayError,
    /// The network layer failed to start.
    NetworkStartError,
    /// The synchronization protocol could not be registered.
    SyncRegistrationError,
    /// An RPC front end could not bind its address.
    RpcBindError,
    /// Mining was enabled without a configured miner address.
    MiningConfigError,
}

impl StartError {
    /// The stage a value of this error names.
    pub open spec fn describe_spec(self) -> Seq<char> {
        match self {
            StartError::ConfigurationError => "a configured value could not be parsed"@,
            StartError::StorageOpenError => "the durable store could not be opened"@,
            StartError::GenesisLoadError => "the genesis account file could not be loaded"@,
            StartError::ReplayError => "the recorded block sequence was unreadable, unparsable or empty"@,
            StartError::NetworkStartError => "the network layer failed to start"@,
            StartError::SyncRegistrationError => "the synchronization protocol could not be registered"@,
            StartError::RpcBindError => "an RPC front end could not bind its address"@,
            StartError::MiningConfigError => "mining was enabled without a configured miner address"@,
        }
    }

    /// A short description of the failed stage.
    pub fn describe(&self) -> (r: &'static str)
        ensures
            r@ == self.describe_spec(),
    {
        match self {
            StartError::ConfigurationError => "a configured value could not be parsed",
            StartError::StorageOpenError => "the durable store could not be opened",
            StartError::GenesisLoadError => "the genesis account file could not be loaded",
            StartError::ReplayError => "the recorded block sequence was unreadable, unparsable or empty",
            StartError::NetworkStartError => "the network layer failed to start",
            StartError::SyncRegistrationError => "the synchronization protocol could not be registered",
            StartError::RpcBindError => "an RPC front end could not bind its address",
            StartError::MiningConfigError => "mining was enabled without a configured miner address",
        }
    }
}

} // verus!
