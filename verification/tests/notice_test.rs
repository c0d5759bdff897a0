//! The texts of notices.

use tcpkali2::error::{error_text, ErrorKind};
use tcpkali2::notice::{
    file_failure_text, latency_failure_text, notice_text, websocket_url,
};
use tcpkali2::worker::{Notice, Transport};

#[test]
fn addresses_of_websocket_servers() {
    assert_eq!(websocket_url("localhost:80"), "ws://localhost:80");
    assert_eq!(websocket_url("ws://a"), "ws://a");
    assert_eq!(websocket_url("wss://a"), "wss://a");
    assert_eq!(websocket_url("WS://a"), "ws://WS://a");
    assert_eq!(websocket_url("ws:/a"), "ws://ws:/a");
    assert_eq!(websocket_url(""), "ws://");
    assert_eq!(websocket_url(&websocket_url("x")), "ws://x");
}

#[test]
fn notices_of_tcp_connections() {
    let text = |notice: Notice| notice_text(Transport::Tcp, notice, "h:1", "why");
    assert_eq!(text(Notice::ConnectFailed), "Failed to connect to h:1: why");
    assert_eq!(text(Notice::ConnectTimedOut), "Connection timeout to h:1");
    assert_eq!(text(Notice::FirstWritePartial), "Partial write of first message");
    assert_eq!(text(Notice::FirstSendFailed), "Failed to send first message: why");
    assert_eq!(text(Notice::FirstReceiveFailed), "Failed to read first message response: why");
    assert_eq!(text(Notice::WritePartial), "Partial write");
    assert_eq!(text(Notice::SendFailed), "Write error: why");
    assert_eq!(text(Notice::ReceiveFailed), "Read error: why");
}

#[test]
fn notices_of_websocket_connections() {
    let text = |notice: Notice| notice_text(Transport::WebSocket, notice, "ws://h", "why");
    assert_eq!(text(Notice::ConnectFailed), "Failed to connect to WebSocket ws://h: why");
    assert_eq!(text(Notice::ConnectTimedOut), "WebSocket connection timeout to ws://h");
    assert_eq!(text(Notice::FirstSendFailed), "Failed to send first WebSocket message: why");
    assert_eq!(text(Notice::FirstReceiveFailed), "Failed to read first message response: why");
    assert_eq!(text(Notice::FirstUnexpected), "Unexpected response to first message");
    assert_eq!(text(Notice::SendFailed), "WebSocket send error: why");
    assert_eq!(text(Notice::ReceiveFailed), "WebSocket receive error: why");
}

#[test]
fn texts_of_other_failures() {
    assert_eq!(latency_failure_text("why"), "Failed to record latency: why");
    assert_eq!(file_failure_text("a.txt", "why"), "Failed to read file a.txt: why");
}

#[test]
fn texts_of_errors() {
    for (kind, text) in [
        (ErrorKind::Io, "IO error: x"),
        (ErrorKind::Network, "Network connection error: x"),
        (ErrorKind::WebSocket, "WebSocket error: x"),
        (ErrorKind::Config, "Configuration error: x"),
        (ErrorKind::Stats, "Statistics recording error: x"),
        (ErrorKind::Task, "Task execution error: x"),
        (ErrorKind::Timeout, "Timeout error: x"),
        (ErrorKind::Parse, "Parse error: x"),
    ] {
        assert_eq!(error_text(kind, "x"), text);
    }
}
