use vstd::prelude::*;

verus! {

/// The operations a single invocation of the command-line client can select,
/// and the file paths handed to the operations that read their parameters
/// from a file. An empty path means the operation was not requested.
#[derive(Debug, Clone)]
pub struct Args {
    pub network: String,
    pub resolver: bool,
    pub get_current_network: bool,
    pub get_sync_status: bool,
    pub get_info: bool,
    pub get_block_count: bool,
    pub get_peer_addresses: bool,
    pub get_sink: bool,
    pub get_connected_peer_info: bool,
    pub get_sink_blue_score: bool,
    pub get_coin_supply: bool,
    pub get_ping: bool,
    pub get_balance_address: String,
    pub get_balance_addresses: String,
    pub get_mempool_entry: String,
    pub get_mempool_entries: bool,
    pub transfer_krc20_tokens: String,
    pub build_wallet: bool,
    pub create_addrs: String,
    pub single_tx: String,
}

} // verus!
