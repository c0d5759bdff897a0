//! The configuration of a load test and its validation.

use bytes::Bytes;
use std::sync::Arc;
use vstd::prelude::*;
use vstd::string::*;

use crate::error::TcpKaliError;
use crate::message::{bytes_of, held, is_alphanumeric, message_bytes};
use crate::message::{generate_payload, get_file_arg, get_message_arg};
use crate::time::Duration;

verus! {

/// The values of the command line arguments.
#[derive(Clone, Debug)]
pub struct Args {
    /// Length of the test.
    pub duration: Duration,
    /// Length of the warmup before it.
    pub warmup: Duration,
    /// Size of a random message.
    pub message_size: usize,
    /// Whether to print nothing.
    pub quiet: bool,
    /// Whether Nagle's algorithm is on.
    pub nagle: bool,
    /// Whether to send without waiting for replies.
    pub pipeline: bool,
    /// Number of connections.
    pub connections: u64,
    /// New connections per second.
    pub connect_rate: u64,
    /// Longest wait for a connection.
    pub connect_timeout: Duration,
    /// Life of a connection after the warmup.
    pub channel_lifetime: Option<Duration>,
    /// Whether messages hold escape sequences.
    pub unescape: bool,
    /// Text to send first, once.
    pub first_message: Option<String>,
    /// File with the text to send first.
    pub first_message_file: Option<String>,
    /// Text to send again and again.
    pub message: Option<String>,
    /// File with the text to send again and again.
    pub message_file: Option<String>,
    /// Messages per second and connection.
    pub message_rate: Option<u64>,
    /// Whether to speak WebSocket.
    pub websocket: bool,
}

/// The configuration of a load test.
#[derive(Clone, Debug)]
pub struct Config {
    /// Length of the test.
    pub duration: Duration,
    /// Length of the warmup before it.
    pub warmup_duration: Duration,
    /// Size of a random message.
    pub message_size: usize,
    /// Whether to print nothing.
    pub quiet: bool,
    /// Whether Nagle's algorithm is on.
    pub nagle: bool,
    /// Whether to send without waiting for replies.
    pub pipeline: bool,
    /// Number of connections.
    pub connections: u64,
    /// New connections per second.
    pub connect_rate: u64,
    /// Longest wait for a connection.
    pub connect_timeout: Duration,
    /// Life of a connection after the warmup.
    pub channel_lifetime: Option<Duration>,
    /// Message to send first, once.
    pub first_message: Option<Bytes>,
    /// Message to send again and again.
    pub message: Option<Bytes>,
    /// Messages per second and connection.
    pub message_rate: Option<u64>,
    /// Whether to speak WebSocket.
    pub use_websocket: bool,
}

impl Args {
    /// The file to read the first message from, if the message itself was not
    /// given.
    pub fn first_file_to_read(&self) -> (r: Option<&String>)
        ensures
            r == if self.first_message.is_some() {
                None
            } else {
                match self.first_message_file {
                    Some(name) => Some(&name),
                    None => None,
                }
            },
    {
        match self.first_message {
            Some(_) => None,
            None => self.first_message_file.as_ref(),
        }
    }

    /// The file to read the message from, if the message itself was not given.
    pub fn file_to_read(&self) -> (r: Option<&String>)
        ensures
            r == if self.message.is_some() {
                None
            } else {
                match self.message_file {
                    Some(name) => Some(&name),
                    None => None,
                }
            },
    {
        match self.message {
            Some(_) => None,
            None => self.message_file.as_ref(),
        }
    }
}

/// The first complaint about the arguments, if there is one.
pub open spec fn config_complaint(args: Args) -> Option<Seq<char>> {
    if args.connections == 0 {
        Some("connections must be greater than 0"@)
    } else if args.connect_timeout@ == 0 {
        Some("connect-timeout must be greater than 0"@)
    } else if args.duration@ == 0 {
        Some("duration must be greater than 0"@)
    } else if args.channel_lifetime.is_some() && args.channel_lifetime.unwrap()@ == 0 {
        Some("channel-lifetime must be greater than 0 if specified"@)
    } else {
        None
    }
}

/// The configuration has the values of the arguments.
pub open spec fn carries(config: Config, args: Args) -> bool {
    &&& config.duration == args.duration
    &&& config.warmup_duration == args.warmup
    &&& config.message_size == args.message_size
    &&& config.quiet == args.quiet
    &&& config.nagle == args.nagle
    &&& config.pipeline == args.pipeline
    &&& config.connections == args.connections
    &&& config.connect_rate == args.connect_rate
    &&& config.connect_timeout == args.connect_timeout
    &&& config.channel_lifetime == args.channel_lifetime
    &&& config.message_rate == args.message_rate
    &&& config.use_websocket == args.websocket
}

/// Checks the arguments and makes a configuration of them and of the two
/// messages.
pub fn validated_config(args: &Args, first_message: Option<Bytes>, message: Option<Bytes>) -> (r:
    Result<Config, TcpKaliError>)
    ensures
        match r {
            Ok(config) => {
                &&& config_complaint(*args) is None
                &&& carries(config, *args)
                &&& config.first_message == first_message
                &&& config.message == message
            },
            Err(e) => e matches TcpKaliError::Config(text) && config_complaint(*args) == Some(
                text@,
            ),
        },
{
    if args.connections == 0 {
        return Err(TcpKaliError::Config("connections must be greater than 0".to_owned()));
    }
    if args.connect_timeout.is_zero() {
        return Err(TcpKaliError::Config("connect-timeout must be greater than 0".to_owned()));
    }
    if args.duration.is_zero() {
        return Err(TcpKaliError::Config("duration must be greater than 0".to_owned()));
    }
    if let Some(lifetime) = args.channel_lifetime {
        if lifetime.is_zero() {
            return Err(
                TcpKaliError::Config(
                    "channel-lifetime must be greater than 0 if specified".to_owned(),
                ),
            );
        }
    }
    Ok(
        Config {
            duration: args.duration,
            warmup_duration: args.warmup,
            message_size: args.message_size,
            quiet: args.quiet,
            nagle: args.nagle,
            pipeline: args.pipeline,
            connections: args.connections,
            connect_rate: args.connect_rate,
            connect_timeout: args.connect_timeout,
            channel_lifetime: args.channel_lifetime,
            first_message,
            message,
            message_rate: args.message_rate,
            use_websocket: args.websocket,
        },
    )
}

/// The bytes of a message that was given as an argument or else read from a
/// file.
pub open spec fn given_message(
    message: Option<String>,
    content: Option<String>,
    unescape: bool,
) -> Option<Seq<u8>> {
    match (message, content) {
        (Some(text), _) => Some(message_bytes(text@, unescape)),
        (None, Some(text)) => Some(message_bytes(text@, unescape)),
        (None, None) => None,
    }
}

/// Makes a configuration of the arguments and of what was read from the files
/// that they name. Without a message, the message is a random payload.
pub fn parse_config(
    args: &Args,
    first_content: Option<String>,
    content: Option<String>,
) -> (r: Result<Arc<Config>, TcpKaliError>)
    ensures
        match r {
            Ok(config) => {
                &&& config_complaint(*args) is None
                &&& carries(*config, *args)
                &&& held(config.first_message) == given_message(
                    args.first_message,
                    first_content,
                    args.unescape,
                )
                &&& match given_message(args.message, content, args.unescape) {
                    Some(bytes) => held(config.message) == Some(bytes),
                    None => config.message matches Some(b) && bytes_of(b).len()
                        == args.message_size && forall|i: int|
                        0 <= i < bytes_of(b).len() ==> is_alphanumeric(#[trigger] bytes_of(b)[i]),
                }
            },
            Err(e) => e matches TcpKaliError::Config(text) && config_complaint(*args) == Some(
                text@,
            ),
        },
{
    let first_message = match get_message_arg(args.first_message.as_ref(), args.unescape) {
        Some(b) => Some(b),
        None => get_file_arg(first_content, args.unescape),
    };
    let message = match get_message_arg(args.message.as_ref(), args.unescape) {
        Some(b) => Some(b),
        None => match get_file_arg(content, args.unescape) {
            Some(b) => Some(b),
            None => generate_payload(args.message_size),
        },
    };
    match validated_config(args, first_message, message) {
        Ok(config) => Ok(Arc::new(config)),
        Err(e) => Err(e),
    }
}

/// What a configuration that was accepted can be relied on for: there is a
/// connection to make, and no length of time is zero but that of the warmup.
pub proof fn accepted_config_is_usable(config: Config, args: Args)
    requires
        config_complaint(args) is None,
        carries(config, args),
    ensures
        config.connections > 0,
        config.connect_timeout@ > 0,
        config.duration@ > 0,
        config.channel_lifetime matches Some(lifetime) ==> lifetime@ > 0,
{
}

/// Checks the number of worker threads.
pub fn check_workers(workers: usize) -> (r: Result<(), TcpKaliError>)
    ensures
        match r {
            Ok(_) => workers > 0,
            Err(e) => workers == 0 && (e matches TcpKaliError::Config(text) && text@
                == "workers must be greater than 0"@),
        },
{
    if workers == 0 {
        Err(TcpKaliError::Config("workers must be greater than 0".to_owned()))
    } else {
        Ok(())
    }
}

} // verus!
