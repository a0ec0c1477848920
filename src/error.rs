use vstd::prelude::*;

verus! {

/// The message carried by an authorization failure.
pub open spec fn bad_token_message() -> Seq<char> {
    "Your token was wrong"@
}

/// A caller's token did not match the configured secret.
#[derive(Debug)]
pub struct AuthError {
    pub details: String,
}

impl AuthError {
    pub fn new(msg: &str) -> (r: AuthError)
        ensures
            r.details@ == msg@,
    {
        AuthError { details: msg.to_owned() }
    }
}

/// The command-line tool ran and exited with a failure status.
#[derive(Debug)]
pub struct CommandError {
    pub details: String,
}

impl CommandError {
    pub fn new(msg: String) -> (r: CommandError)
        ensures
            r.details@ == msg@,
    {
        CommandError { details: msg }
    }
}

/// The kinds of failure that a request or the startup can meet.
#[derive(Debug, Clone, Copy, PartialEq, Eq, Structural)]
pub enum ErrorKind {
    /// The configuration could not be had; fatal at startup.
    Config,
    /// The caller's token was missing or wrong.
    Auth,
    /// The tool could not be started at all.
    Launch,
    /// The tool exited with a failure status.
    Exit,
    /// The tool wrote output that is not UTF-8.
    Decode,
}

/// Every failure of the gateway, each with a human-readable message.
#[derive(Debug)]
pub enum GatewayError {
    Config(String),
    Auth(AuthError),
    Launch(String),
    Exit(CommandError),
    Decode(String),
}

impl View for GatewayError {
    type V = (ErrorKind, Seq<char>);

    open spec fn view(&self) -> (ErrorKind, Seq<char>) {
        match self {
            GatewayError::Config(m) => (ErrorKind::Config, m@),
            GatewayError::Auth(e) => (ErrorKind::Auth, e.details@),
            GatewayError::Launch(m) => (ErrorKind::Launch, m@),
            GatewayError::Exit(e) => (ErrorKind::Exit, e.details@),
            GatewayError::Decode(m) => (ErrorKind::Decode, m@),
        }
    }
}

/// The HTTP status that a failure of the given kind is answered with.
pub open spec fn status_of_kind(k: ErrorKind) -> u16 {
    match k {
        ErrorKind::Auth => 401,
        _ => 500,
    }
}

impl GatewayError {
    pub fn kind(&self) -> (r: ErrorKind)
        ensures
            r == self@.0,
    {
        match self {
            GatewayError::Config(_) => ErrorKind::Config,
            GatewayError::Auth(_) => ErrorKind::Auth,
            GatewayError::Launch(_) => ErrorKind::Launch,
            GatewayError::Exit(_) => ErrorKind::Exit,
            GatewayError::Decode(_) => ErrorKind::Decode,
        }
    }

    /// The message of this failure.
    pub fn message(&self) -> (r: String)
        ensures
            r@ == self@.1,
    {
        match self {
            GatewayError::Config(m) => m.clone(),
            GatewayError::Auth(e) => e.details.clone(),
            GatewayError::Launch(m) => m.clone(),
            GatewayError::Exit(e) => e.details.clone(),
            GatewayError::Decode(m) => m.clone(),
        }
    }

    /// The HTTP status this failure is answered with.
    pub fn http_code(&self) -> (r: u16)
        ensures
            r == status_of_kind(self@.0),
    {
        match self {
            GatewayError::Auth(_) => 401,
            _ => 500,
        }
    }
}

/// A result with its text and its failure seen through their views.
pub open spec fn result_view(r: Result<String, GatewayError>) -> Result<
    Seq<char>,
    (ErrorKind, Seq<char>),
> {
    match r {
        Ok(s) => Ok(s@),
        Err(e) => Err(e@),
    }
}

} // verus!
