//! The fixed setup of the regtest bitcoind that runs in a docker container
//! for integration runs, and the values derived from it.

use vstd::prelude::*;
use crate::types::RPCConfig;

verus! {

/// The RPC endpoint of the containerized bitcoind, with its scheme.
pub const DOCKER_BITCOIN_RPC_URL: &'static str = "http://localhost:18442";

/// The RPC user of the containerized bitcoind.
pub const DOCKER_BITCOIN_RPC_USER: &'static str = "user";

/// The RPC password of the containerized bitcoind.
pub const DOCKER_BITCOIN_RPC_PASS: &'static str = "password";

/// The ZMQ endpoint on which the containerized bitcoind publishes.
pub const DOCKER_BITCOIN_ZMQ: &'static str = "tcp://127.0.0.1:28332";

/// The RPC address, without scheme, that a taker is configured with.
pub const DOCKER_TAKER_RPC_ADDRESS: &'static str = "localhost:18442";

/// The wallet of the containerized bitcoind that funds test takers.
pub const FUNDING_WALLET_NAME: &'static str = "test";

/// The name of the docker container that runs bitcoind.
pub const BITCOIND_CONTAINER: &'static str = "coinswap-ffi-bitcoind";

/// The directory inside the container that holds bitcoind's wallets.
pub const CONTAINER_WALLETS_DIR: &'static str = "/home/bitcoin/.bitcoin/wallets/";

/// The RPC settings under which a taker reaches the containerized bitcoind
/// with the wallet `wallet_name`.
pub fn get_docker_rpc_config(wallet_name: &str) -> (config: RPCConfig)
    ensures
        config.url@ == DOCKER_TAKER_RPC_ADDRESS@,
        config.username@ == DOCKER_BITCOIN_RPC_USER@,
        config.password@ == DOCKER_BITCOIN_RPC_PASS@,
        config.wallet_name@ == wallet_name@,
{
    RPCConfig {
        url: String::from_str(DOCKER_TAKER_RPC_ADDRESS),
        username: String::from_str(DOCKER_BITCOIN_RPC_USER),
        password: String::from_str(DOCKER_BITCOIN_RPC_PASS),
        wallet_name: String::from_str(wallet_name),
    }
}

/// The RPC endpoint of the wallet `wallet` on the node reached at `base`.
pub fn wallet_rpc_url(base: &str, wallet: &str) -> (url: String)
    ensures
        url@ == base@ + "/wallet/"@ + wallet@,
{
    let mut url = String::from_str(base);
    url.append("/wallet/");
    url.append(wallet);
    url
}

/// The RPC endpoint of the funding wallet of the containerized bitcoind.
pub fn funding_wallet_url() -> (url: String)
    ensures
        url@ == DOCKER_BITCOIN_RPC_URL@ + "/wallet/"@ + FUNDING_WALLET_NAME@,
{
    wallet_rpc_url(DOCKER_BITCOIN_RPC_URL, FUNDING_WALLET_NAME)
}

/// Where bitcoind keeps the wallet `wallet_name` inside its container.
pub fn container_wallet_path(wallet_name: &str) -> (path: String)
    ensures
        path@ == CONTAINER_WALLETS_DIR@ + wallet_name@,
{
    let mut path = String::from_str(CONTAINER_WALLETS_DIR);
    path.append(wallet_name);
    path
}

/// The arguments of `docker` that delete the wallet `wallet_name` from the
/// bitcoind container: `exec <container> rm -rf <wallet path>`.
pub fn wallet_removal_args(wallet_name: &str) -> (args: Vec<String>)
    ensures
        args@.len() == 5,
        args@[0]@ == "exec"@,
        args@[1]@ == BITCOIND_CONTAINER@,
        args@[2]@ == "rm"@,
        args@[3]@ == "-rf"@,
        args@[4]@ == CONTAINER_WALLETS_DIR@ + wallet_name@,
{
    let mut args: Vec<String> = Vec::new();
    args.push(String::from_str("exec"));
    args.push(String::from_str(BITCOIND_CONTAINER));
    args.push(String::from_str("rm"));
    args.push(String::from_str("-rf"));
    args.push(container_wallet_path(wallet_name));
    args
}

} // verus!
