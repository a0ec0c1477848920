use vstd::prelude::*;

use vstd::utf8::{decode_utf8, valid_utf8};

use crate::command::{outcome_of, send_args, send_command, status_args, status_command};
use crate::config::Configuration;
use crate::error::{bad_token_message, result_view, status_of_kind, AuthError, ErrorKind, GatewayError};

verus! {

/// An HTTP response: a status code and a text body.
#[derive(Debug)]
pub struct Response {
    pub status: u16,
    pub body: String,
}

impl View for Response {
    type V = (u16, Seq<char>);

    open spec fn view(&self) -> (u16, Seq<char>) {
        (self.status, self.body@)
    }
}

/// What a request handler asks for next: run the tool with an argument list
/// (executable first) and relay its result, or answer at once.
#[derive(Debug)]
pub enum Action {
    Run(Vec<String>),
    Reply(Response),
}

/// The mathematical form of an [`Action`].
pub enum ActionView {
    Run(Seq<Seq<char>>),
    Reply((u16, Seq<char>)),
}

impl View for Action {
    type V = ActionView;

    open spec fn view(&self) -> ActionView {
        match self {
            Action::Run(args) => ActionView::Run(args.deep_view()),
            Action::Reply(r) => ActionView::Reply(r@),
        }
    }
}

/// The response for a result: status 200 with the text, or the failure's
/// status with its message.
pub open spec fn response_of(o: Result<Seq<char>, (ErrorKind, Seq<char>)>) -> (u16, Seq<char>) {
    match o {
        Ok(body) => (200, body),
        Err((kind, message)) => (status_of_kind(kind), message),
    }
}

/// Whether a request that presents `token` may send funds: always when no
/// secret is configured, else only with a token equal to the secret.
pub open spec fn token_accepted(secret: Option<Seq<char>>, token: Option<Seq<char>>) -> bool {
    match secret {
        None => true,
        Some(s) => token == Some(s),
    }
}

/// What a `send` request leads to.
pub open spec fn send_action(
    c: Configuration,
    to: Seq<char>,
    amount: Seq<char>,
    token: Option<Seq<char>>,
) -> ActionView {
    if token_accepted(c.secret.deep_view(), token) {
        ActionView::Run(send_args(c, to, amount))
    } else {
        ActionView::Reply((401, bad_token_message()))
    }
}

/// Turns the result of a run of the tool into the response relayed to the caller.
pub fn relay(outcome: Result<String, GatewayError>) -> (r: Response)
    ensures
        r@ == response_of(result_view(outcome)),
{
    match outcome {
        Ok(body) => Response { status: 200, body },
        Err(e) => Response { status: e.http_code(), body: e.message() },
    }
}

/// The liveness probe's fixed answer.
pub fn index() -> (r: &'static str)
    ensures
        r@ == "Hello, world!"@,
{
    "Hello, world!"
}

/// `GET /status`: run the tool's status query; its result is then relayed.
pub fn http_status(c: &Configuration) -> (r: Action)
    ensures
        r@ == ActionView::Run(status_args(*c)),
{
    Action::Run(status_command(c))
}

/// Checks a caller's token against the configured secret.
pub fn authorize(secret: &Option<String>, token: &Option<String>) -> (r: Result<(), AuthError>)
    ensures
        r is Ok <==> token_accepted(secret.deep_view(), token.deep_view()),
        r matches Err(e) ==> e.details@ == bad_token_message(),
{
    let accepted = match secret {
        None => true,
        Some(s) => match token {
            Some(t) => *t == *s,
            None => false,
        },
    };
    if accepted {
        Ok(())
    } else {
        Err(AuthError::new("Your token was wrong"))
    }
}

/// `POST /send/<to_address>/<amount>` with an optional `token`: answer 401
/// without running anything when the token is not accepted, else run the
/// tool's transfer; its result is then relayed.
pub fn http_send(c: &Configuration, to_address: String, amount: String, token: Option<String>) -> (r: Action)
    ensures
        r@ == send_action(*c, to_address@, amount@, token.deep_view()),
{
    match authorize(&c.secret, &token) {
        Ok(()) => Action::Run(send_command(c, to_address, amount)),
        Err(e) => Action::Reply(relay(Err(GatewayError::Auth(e)))),
    }
}

/// A run of the tool that succeeded with a payload is answered with status 200
/// and exactly that payload; this holds for a run that exited successfully with
/// UTF-8 output too, whose payload is its decoded standard output.
pub proof fn success_relays_payload(payload: Seq<char>, stdout: Seq<u8>, stderr: Seq<u8>)
    ensures
        response_of(Ok(payload)) == (200u16, payload),
        valid_utf8(stdout) && valid_utf8(stderr) ==> response_of(outcome_of(true, stdout, stderr))
            == (200u16, decode_utf8(stdout)),
{
}

/// A failed run of the tool is never answered with status 200, and the answer's
/// body is the failure's message; for a run that exited with a failure status
/// and UTF-8 output, that message is its decoded standard error.
pub proof fn failure_relays_message(kind: ErrorKind, message: Seq<char>, stdout: Seq<u8>, stderr: Seq<u8>)
    ensures
        response_of(Err((kind, message))).0 != 200,
        response_of(Err((kind, message))).1 == message,
        valid_utf8(stdout) && valid_utf8(stderr) ==> response_of(outcome_of(false, stdout, stderr))
            == (500u16, decode_utf8(stderr)),
{
}

/// With a secret configured, a `send` request whose token is missing or differs
/// from it is answered 401 and runs nothing; one whose token equals it runs the
/// transfer.
pub proof fn secret_guards_send(c: Configuration, to: Seq<char>, amount: Seq<char>, token: Option<Seq<char>>)
    requires
        c.secret is Some,
    ensures
        token != c.secret.deep_view() ==> send_action(c, to, amount, token) == ActionView::Reply(
            (401u16, bad_token_message()),
        ),
        token == c.secret.deep_view() ==> send_action(c, to, amount, token) == ActionView::Run(
            send_args(c, to, amount),
        ),
{
}

/// Without a secret configured, every `send` request runs the transfer,
/// whatever token it presents or whether it presents one at all.
pub proof fn no_secret_no_check(c: Configuration, to: Seq<char>, amount: Seq<char>, token: Option<Seq<char>>)
    requires
        c.secret is None,
    ensures
        send_action(c, to, amount, token) == ActionView::Run(send_args(c, to, amount)),
{
}

} // verus!
