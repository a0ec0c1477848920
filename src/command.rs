use vstd::prelude::*;
use vstd::utf8::{decode_utf8, valid_utf8};

use crate::config::Configuration;
use crate::error::{result_view, CommandError, ErrorKind, GatewayError};

verus! {

/// The node address as the tool expects it.
pub open spec fn node_url(node_addr: Seq<char>) -> Seq<char> {
    "tcp://"@ + node_addr
}

/// The argument list (executable first) that asks the tool for the node's status.
pub open spec fn status_args(c: Configuration) -> Seq<Seq<char>> {
    seq![
        c.cli_binary_path@,
        "status"@,
        "--node"@,
        node_url(c.node_addr@),
        "-o"@,
        "json"@,
    ]
}

/// The argument list (executable first) that has the tool send `amount` from
/// the faucet account to `to`.
pub open spec fn send_args(c: Configuration, to: Seq<char>, amount: Seq<char>) -> Seq<Seq<char>> {
    seq![
        c.cli_binary_path@,
        "tx"@,
        "send"@,
        c.faucet_addr@,
        to,
        amount,
        "--home"@,
        c.cli_config_path@,
        "--keyring-backend"@,
        "test"@,
        "--chain-id"@,
        c.chain_id@,
        "--node"@,
        node_url(c.node_addr@),
        "-o"@,
        "json"@,
        "--yes"@,
    ]
}

/// The message given when the tool's standard output is not UTF-8.
pub open spec fn stdout_not_utf8() -> Seq<char> {
    "the tool's standard output is not valid UTF-8"@
}

/// The message given when the tool's standard error is not UTF-8.
pub open spec fn stderr_not_utf8() -> Seq<char> {
    "the tool's standard error is not valid UTF-8"@
}

/// What a finished run of the tool amounts to: its standard output when it
/// exited successfully, else its standard error as the failure; output that
/// is not UTF-8 is a failure of its own, standard output checked first.
pub open spec fn outcome_of(exit_ok: bool, stdout: Seq<u8>, stderr: Seq<u8>) -> Result<
    Seq<char>,
    (ErrorKind, Seq<char>),
> {
    if !valid_utf8(stdout) {
        Err((ErrorKind::Decode, stdout_not_utf8()))
    } else if !valid_utf8(stderr) {
        Err((ErrorKind::Decode, stderr_not_utf8()))
    } else if exit_ok {
        Ok(decode_utf8(stdout))
    } else {
        Err((ErrorKind::Exit, decode_utf8(stderr)))
    }
}

fn node_url_of(node_addr: &String) -> (r: String)
    ensures
        r@ == node_url(node_addr@),
{
    let mut url = "tcp://".to_owned();
    url.append(node_addr.as_str());
    url
}

/// The command line that queries the node's status.
pub fn status_command(c: &Configuration) -> (r: Vec<String>)
    ensures
        r.deep_view() == status_args(*c),
{
    let r = vec![
        c.cli_binary_path.clone(),
        "status".to_owned(),
        "--node".to_owned(),
        node_url_of(&c.node_addr),
        "-o".to_owned(),
        "json".to_owned(),
    ];
    assert(r.deep_view() =~= status_args(*c));
    r
}

/// The command line that sends `amount` from the faucet account to `to_address`.
pub fn send_command(c: &Configuration, to_address: String, amount: String) -> (r: Vec<String>)
    ensures
        r.deep_view() == send_args(*c, to_address@, amount@),
{
    let r = vec![
        c.cli_binary_path.clone(),
        "tx".to_owned(),
        "send".to_owned(),
        c.faucet_addr.clone(),
        to_address,
        amount,
        "--home".to_owned(),
        c.cli_config_path.clone(),
        "--keyring-backend".to_owned(),
        "test".to_owned(),
        "--chain-id".to_owned(),
        c.chain_id.clone(),
        "--node".to_owned(),
        node_url_of(&c.node_addr),
        "-o".to_owned(),
        "json".to_owned(),
        "--yes".to_owned(),
    ];
    assert(r.deep_view() =~= send_args(*c, to_address@, amount@));
    r
}

/// Relies on `String::from_utf8`: the bytes become a string exactly when they
/// are UTF-8, and the string is then their decoding.
#[verifier::external_body]
fn utf8_text(bytes: Vec<u8>) -> (r: Option<String>)
    ensures
        r is Some <==> valid_utf8(bytes@),
        r matches Some(s) ==> s@ == decode_utf8(bytes@),
{
    String::from_utf8(bytes).ok()
}

/// Turns the exit status and captured output of a finished run of the tool
/// into its result.
pub fn command_outcome(exit_ok: bool, stdout: Vec<u8>, stderr: Vec<u8>) -> (r: Result<
    String,
    GatewayError,
>)
    ensures
        result_view(r) == outcome_of(exit_ok, stdout@, stderr@),
{
    let out = match utf8_text(stdout) {
        Some(s) => s,
        None => {
            return Err(
                GatewayError::Decode("the tool's standard output is not valid UTF-8".to_owned()),
            );
        },
    };
    let err = match utf8_text(stderr) {
        Some(s) => s,
        None => {
            return Err(
                GatewayError::Decode("the tool's standard error is not valid UTF-8".to_owned()),
            );
        },
    };
    if exit_ok {
        Ok(out)
    } else {
        Err(GatewayError::Exit(CommandError::new(err)))
    }
}

} // verus!
