//! The configuration, messages and errors.

use bytes::Bytes;
use tcpkali2::command::{check_workers, parse_config, validated_config, Args};
use tcpkali2::error::TcpKaliError;
use tcpkali2::message::{generate_payload, get_file_arg, get_message_arg};
use tcpkali2::time::Duration;
use tcpkali2::worker::{Plan, Transport};

fn args() -> Args {
    Args {
        duration: Duration::from_secs(15),
        warmup: Duration::from_secs(5),
        message_size: 128,
        quiet: false,
        nagle: true,
        pipeline: false,
        connections: 3,
        connect_rate: 100,
        connect_timeout: Duration::from_secs(1),
        channel_lifetime: None,
        unescape: false,
        first_message: None,
        first_message_file: None,
        message: None,
        message_file: None,
        message_rate: Some(7),
        websocket: false,
    }
}

fn complaint(args: &Args) -> String {
    match parse_config(args, None, None) {
        Err(TcpKaliError::Config(text)) => text,
        other => panic!("{:?}", other),
    }
}

#[test]
fn a_configuration_carries_the_arguments() {
    let mut a = args();
    a.channel_lifetime = Some(Duration::from_millis(20));
    a.pipeline = true;
    a.websocket = true;
    let config = parse_config(&a, None, None).unwrap();
    assert_eq!(config.duration, Duration::from_secs(15));
    assert_eq!(config.warmup_duration, Duration::from_secs(5));
    assert_eq!(config.message_size, 128);
    assert!(!config.quiet);
    assert!(config.nagle);
    assert!(config.pipeline);
    assert_eq!(config.connections, 3);
    assert_eq!(config.connect_rate, 100);
    assert_eq!(config.connect_timeout, Duration::from_secs(1));
    assert_eq!(config.channel_lifetime, Some(Duration::from_millis(20)));
    assert_eq!(config.message_rate, Some(7));
    assert!(config.use_websocket);
    assert_eq!(config.first_message, None);
}

#[test]
fn arguments_that_are_refused() {
    let zero = Duration::from_secs(0);
    let mut a = args();
    a.channel_lifetime = Some(zero);
    assert_eq!(complaint(&a), "channel-lifetime must be greater than 0 if specified");
    a.duration = zero;
    assert_eq!(complaint(&a), "duration must be greater than 0");
    a.connect_timeout = zero;
    assert_eq!(complaint(&a), "connect-timeout must be greater than 0");
    a.connections = 0;
    assert_eq!(complaint(&a), "connections must be greater than 0");
}

#[test]
fn a_warmup_without_length_is_accepted() {
    let mut a = args();
    a.warmup = Duration::from_secs(0);
    a.connect_rate = 0;
    assert!(validated_config(&a, None, None).is_ok());
}

#[test]
fn without_a_message_the_payload_is_random() {
    let config = parse_config(&args(), None, None).unwrap();
    let payload = config.message.clone().unwrap();
    assert_eq!(payload.len(), 128);
    assert!(payload.iter().all(|b| b.is_ascii_alphanumeric()));
    let other = parse_config(&args(), None, None).unwrap();
    assert_ne!(other.message, config.message);
}

#[test]
fn a_message_comes_before_a_file() {
    let mut a = args();
    a.unescape = true;
    a.message = Some("m\\n".to_string());
    a.first_message = Some("f\\t".to_string());
    a.message_file = Some("message.txt".to_string());
    a.first_message_file = Some("first.txt".to_string());
    assert_eq!(a.file_to_read(), None);
    assert_eq!(a.first_file_to_read(), None);
    let config = parse_config(&a, Some("x".to_string()), Some("y".to_string())).unwrap();
    assert_eq!(config.message, Some(Bytes::from_static(b"m\n")));
    assert_eq!(config.first_message, Some(Bytes::from_static(b"f\t")));

    a.message = None;
    a.first_message = None;
    assert_eq!(a.file_to_read(), Some(&"message.txt".to_string()));
    assert_eq!(a.first_file_to_read(), Some(&"first.txt".to_string()));
    let config = parse_config(&a, Some("\\x41".to_string()), Some("y\\".to_string())).unwrap();
    assert_eq!(config.first_message, Some(Bytes::from_static(b"A")));
    assert_eq!(config.message, Some(Bytes::from_static(b"y\\")));

    let config = parse_config(&a, None, None).unwrap();
    assert_eq!(config.first_message, None);
    assert_eq!(config.message.clone().unwrap().len(), 128);
}

#[test]
fn messages_as_bytes() {
    let text = "\u{E9}\\x41".to_string();
    assert_eq!(
        get_message_arg(Some(&text), false),
        Some(Bytes::from_static(b"\xC3\xA9\\x41"))
    );
    assert_eq!(get_message_arg(Some(&text), true), Some(Bytes::from_static(b"\xC3\xA9A")));
    assert_eq!(get_message_arg(None, true), None);
    assert_eq!(
        get_file_arg(Some(text.clone()), false),
        Some(Bytes::from_static(b"\xC3\xA9\\x41"))
    );
    assert_eq!(get_file_arg(Some(text), true), Some(Bytes::from_static(b"\xC3\xA9A")));
    assert_eq!(get_file_arg(None, false), None);
}

#[test]
fn random_payloads() {
    assert_eq!(generate_payload(0), Some(Bytes::new()));
    let payload = generate_payload(1000).unwrap();
    assert_eq!(payload.len(), 1000);
    assert!(payload.iter().all(|b| b.is_ascii_alphanumeric()));
    assert_ne!(generate_payload(64), generate_payload(64));
}

#[test]
fn a_plan_of_a_configuration() {
    let mut a = args();
    a.message = Some("four".to_string());
    a.first_message = Some("five5".to_string());
    a.channel_lifetime = Some(Duration::from_secs(2));
    let config = parse_config(&a, None, None).unwrap();
    let plan = Plan::new(&config);
    assert_eq!(plan.transport, Transport::Tcp);
    assert_eq!(plan.message_len, Some(4));
    assert_eq!(plan.first_len, Some(5));
    assert_eq!(plan.message_rate, Some(7));
    assert_eq!(plan.warmup, Duration::from_secs(5));
    assert_eq!(plan.lifetime, Some(Duration::from_secs(2)));
    assert!(plan.nagle);
    assert!(!plan.nodelay());
    assert_eq!(plan.connect_timeout, Duration::from_secs(1));
    a.websocket = true;
    let config = parse_config(&a, None, None).unwrap();
    assert_eq!(Plan::new(&config).transport, Transport::WebSocket);
}

#[test]
fn worker_threads_are_needed() {
    assert!(check_workers(1).is_ok());
    match check_workers(0) {
        Err(TcpKaliError::Config(text)) => assert_eq!(text, "workers must be greater than 0"),
        other => panic!("{:?}", other),
    }
}

#[test]
fn errors_are_made_of_texts() {
    assert!(matches!(TcpKaliError::network("a"), TcpKaliError::Network(t) if t == "a"));
    assert!(matches!(TcpKaliError::config("b"), TcpKaliError::Config(t) if t == "b"));
    assert!(matches!(TcpKaliError::task(String::from("c")), TcpKaliError::Task(t) if t == "c"));
    assert!(matches!(TcpKaliError::timeout('d'), TcpKaliError::Timeout(t) if t == "d"));
    let ended = TcpKaliError::from(tungstenite::Error::ConnectionClosed);
    let text = tungstenite::Error::ConnectionClosed.to_string();
    assert!(matches!(ended, TcpKaliError::WebSocket(t) if t == text && !t.is_empty()));
    let io = std::io::Error::other("disk");
    assert!(matches!(TcpKaliError::from(io), TcpKaliError::Io(e) if e.to_string() == "disk"));
}
