//! The error type of the library.

use vstd::prelude::*;
use vstd::string::*;

verus! {

/// An error of the operating system's input and output.
///
/// Trusted: carries `std::io::Error` through; nothing is known of its content.
#[verifier::external_type_specification]
#[verifier::external_body]
pub struct ExIoError(std::io::Error);

/// An error of the WebSocket layer.
///
/// Trusted: carries `tungstenite::Error` through; nothing is known of its
/// content.
#[verifier::external_type_specification]
#[verifier::external_body]
pub struct ExWebSocketError(tungstenite::Error);

/// The text of an error of the WebSocket layer.
///
/// Trusted: `to_string` of `tungstenite::Error`. Its text is left unsaid: it can
/// hold the operating system's own words.
#[verifier::external_body]
fn websocket_error_text(err: &tungstenite::Error) -> String {
    err.to_string()
}

/// The text is one that the error of the WebSocket layer gives of itself.
pub closed spec fn tells(err: tungstenite::Error, text: String) -> bool {
    call_ensures(websocket_error_text, (&err,), text)
}

/// What can go wrong in a load test.
#[derive(Debug)]
pub enum TcpKaliError {
    /// Input or output failed.
    Io(std::io::Error),
    /// The network connection failed.
    Network(String),
    /// The WebSocket layer failed.
    WebSocket(String),
    /// The configuration is not usable.
    Config(String),
    /// A figure could not be recorded.
    Stats(String),
    /// A task failed.
    Task(String),
    /// An operation took too long.
    Timeout(String),
    /// A text could not be parsed.
    Parse(String),
}

/// What kind of thing went wrong.
#[derive(Clone, Copy, Debug, PartialEq, Eq, Structural)]
pub enum ErrorKind {
    Io,
    Network,
    WebSocket,
    Config,
    Stats,
    Task,
    Timeout,
    Parse,
}

/// How an error is shown to the user; `detail` is its own text.
pub open spec fn error_words(kind: ErrorKind, detail: Seq<char>) -> Seq<char> {
    (match kind {
        ErrorKind::Io => "IO error: "@,
        ErrorKind::Network => "Network connection error: "@,
        ErrorKind::WebSocket => "WebSocket error: "@,
        ErrorKind::Config => "Configuration error: "@,
        ErrorKind::Stats => "Statistics recording error: "@,
        ErrorKind::Task => "Task execution error: "@,
        ErrorKind::Timeout => "Timeout error: "@,
        ErrorKind::Parse => "Parse error: "@,
    }) + detail
}

/// How an error is shown to the user; `detail` is its own text.
pub fn error_text(kind: ErrorKind, detail: &str) -> (r: String)
    ensures
        r@ == error_words(kind, detail@),
{
    let mut text = match kind {
        ErrorKind::Io => "IO error: ".to_owned(),
        ErrorKind::Network => "Network connection error: ".to_owned(),
        ErrorKind::WebSocket => "WebSocket error: ".to_owned(),
        ErrorKind::Config => "Configuration error: ".to_owned(),
        ErrorKind::Stats => "Statistics recording error: ".to_owned(),
        ErrorKind::Task => "Task execution error: ".to_owned(),
        ErrorKind::Timeout => "Timeout error: ".to_owned(),
        ErrorKind::Parse => "Parse error: ".to_owned(),
    };
    text.append(detail);
    text
}

impl From<std::io::Error> for TcpKaliError {
    fn from(err: std::io::Error) -> (r: Self) {
        TcpKaliError::Io(err)
    }
}

impl vstd::std_specs::convert::FromSpecImpl<std::io::Error> for TcpKaliError {
    open spec fn obeys_from_spec() -> bool {
        true
    }

    open spec fn from_spec(err: std::io::Error) -> Self {
        TcpKaliError::Io(err)
    }
}

impl From<tungstenite::Error> for TcpKaliError {
    fn from(err: tungstenite::Error) -> (r: Self)
        ensures
            r matches TcpKaliError::WebSocket(text) && tells(err, text),
    {
        TcpKaliError::WebSocket(websocket_error_text(&err))
    }
}

impl vstd::std_specs::convert::FromSpecImpl<tungstenite::Error> for TcpKaliError {
    open spec fn obeys_from_spec() -> bool {
        false
    }

    open spec fn from_spec(err: tungstenite::Error) -> Self {
        arbitrary()
    }
}

impl TcpKaliError {
    /// A network error; its text is what `msg` converts to.
    pub fn network<T: Into<String>>(msg: T) -> (r: Self)
        ensures
            r matches TcpKaliError::Network(text) && call_ensures(T::into, (msg,), text),
    {
        TcpKaliError::Network(msg.into())
    }

    /// A configuration error; its text is what `msg` converts to.
    pub fn config<T: Into<String>>(msg: T) -> (r: Self)
        ensures
            r matches TcpKaliError::Config(text) && call_ensures(T::into, (msg,), text),
    {
        TcpKaliError::Config(msg.into())
    }

    /// A task error; its text is what `msg` converts to.
    pub fn task<T: Into<String>>(msg: T) -> (r: Self)
        ensures
            r matches TcpKaliError::Task(text) && call_ensures(T::into, (msg,), text),
    {
        TcpKaliError::Task(msg.into())
    }

    /// A timeout error; its text is what `msg` converts to.
    pub fn timeout<T: Into<String>>(msg: T) -> (r: Self)
        ensures
            r matches TcpKaliError::Timeout(text) && call_ensures(T::into, (msg,), text),
    {
        TcpKaliError::Timeout(msg.into())
    }
}

} // verus!
