use vstd::prelude::*;

use crate::error::{ErrorKind, GatewayError};

verus! {

/// The IP address part of the address the server listens on.
#[derive(Debug, Clone, Copy, PartialEq, Eq)]
pub enum HostIp {
    V4([u8; 4]),
    V6([u16; 8]),
}

/// The network address the server binds: an IP address and a port.
#[derive(Debug, Clone, Copy, PartialEq, Eq)]
pub struct ListenAddr {
    pub ip: HostIp,
    pub port: u16,
}

/// The gateway's settings, loaded once at startup and never changed after.
#[derive(Debug)]
pub struct Configuration {
    /// Where the HTTP server listens.
    pub listen_addr: ListenAddr,
    /// The chain identifier handed to the tool.
    pub chain_id: String,
    /// The tool's executable.
    pub cli_binary_path: String,
    /// The tool's home directory.
    pub cli_config_path: String,
    /// The account that funds every transfer.
    pub faucet_addr: String,
    /// The denomination shown to users; no decision reads it.
    pub unit: String,
    /// The node's `host:port`.
    pub node_addr: String,
    /// The shared token that callers of `send` must present; `None` turns
    /// authorization off.
    pub secret: Option<String>,
}

/// The message given when the configuration file's path is missing.
pub open spec fn usage_message() -> Seq<char> {
    "usage: faucet <config.yaml>"@
}

/// The path of the configuration file, taken from the process arguments
/// (`args[0]` is the program, `args[1]` the path; further ones are ignored).
pub fn config_path_from_args(args: &Vec<String>) -> (r: Result<String, GatewayError>)
    ensures
        r is Ok <==> args@.len() >= 2,
        r matches Ok(p) ==> p@ == args@[1]@,
        r matches Err(e) ==> e@ == (ErrorKind::Config, usage_message()),
{
    if args.len() >= 2 {
        Ok(args[1].clone())
    } else {
        Err(GatewayError::Config("usage: faucet <config.yaml>".to_owned()))
    }
}

} // verus!
