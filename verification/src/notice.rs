//! The texts of notices, and the address of a WebSocket server.

use vstd::prelude::*;
use vstd::string::*;

use crate::text::chars_of;
use crate::worker::{Notice, Transport};

verus! {

/// `s` starts with `prefix`.
pub open spec fn starts_with(s: Seq<char>, prefix: Seq<char>) -> bool {
    s.len() >= prefix.len() && s.take(prefix.len() as int) == prefix
}

fn has_prefix(s: &str, prefix: &str) -> (r: bool)
    ensures
        r == starts_with(s@, prefix@),
{
    let chars = chars_of(s);
    let wanted = chars_of(prefix);
    if chars.len() < wanted.len() {
        return false;
    }
    for i in 0..wanted.len()
        invariant
            chars@ == s@,
            wanted@ == prefix@,
            chars.len() >= wanted.len(),
            forall|j: int| 0 <= j < i ==> #[trigger] s@[j] == prefix@[j],
    {
        if chars[i] != wanted[i] {
            assert(s@.take(prefix@.len() as int)[i as int] != prefix@[i as int]);
            return false;
        }
    }
    assert(s@.take(prefix@.len() as int) =~= prefix@);
    true
}

/// The address of a WebSocket server: the target, behind `ws://` unless it
/// names the protocol itself.
pub open spec fn url_of(target: Seq<char>) -> Seq<char> {
    if starts_with(target, "ws://"@) || starts_with(target, "wss://"@) {
        target
    } else {
        "ws://"@ + target
    }
}

/// The address of a WebSocket server.
pub fn websocket_url(target: &str) -> (r: String)
    ensures
        r@ == url_of(target@),
{
    if has_prefix(target, "ws://") || has_prefix(target, "wss://") {
        target.to_owned()
    } else {
        let mut url = "ws://".to_owned();
        url.append(target);
        url
    }
}

/// The address of a WebSocket server is its own address.
pub proof fn url_is_stable(target: Seq<char>)
    ensures
        url_of(url_of(target)) == url_of(target),
{
    let url = "ws://"@ + target;
    assert(url.take("ws://"@.len() as int) =~= "ws://"@);
}

/// The text for a latency that could not be recorded; `detail` is the text of
/// the error behind it.
pub fn latency_failure_text(detail: &str) -> (r: String)
    ensures
        r@ == "Failed to record latency: "@ + detail@,
{
    let mut text = "Failed to record latency: ".to_owned();
    text.append(detail);
    text
}

/// The text for a file that could not be read; `detail` is the text of the
/// error behind it.
pub fn file_failure_text(name: &str, detail: &str) -> (r: String)
    ensures
        r@ == "Failed to read file "@ + name@ + ": "@ + detail@,
{
    let mut text = "Failed to read file ".to_owned();
    text.append(name);
    text.append(": ");
    text.append(detail);
    text
}

/// The text of a notice; `detail` is the text of the error behind it.
pub open spec fn notice_words(
    transport: Transport,
    notice: Notice,
    target: Seq<char>,
    detail: Seq<char>,
) -> Seq<char> {
    let tcp = transport == Transport::Tcp;
    match notice {
        Notice::ConnectFailed => (if tcp {
            "Failed to connect to "@
        } else {
            "Failed to connect to WebSocket "@
        }) + target + ": "@ + detail,
        Notice::ConnectTimedOut => (if tcp {
            "Connection timeout to "@
        } else {
            "WebSocket connection timeout to "@
        }) + target,
        Notice::FirstWritePartial => "Partial write of first message"@,
        Notice::FirstSendFailed => (if tcp {
            "Failed to send first message: "@
        } else {
            "Failed to send first WebSocket message: "@
        }) + detail,
        Notice::FirstReceiveFailed => "Failed to read first message response: "@ + detail,
        Notice::FirstUnexpected => "Unexpected response to first message"@,
        Notice::WritePartial => "Partial write"@,
        Notice::SendFailed => (if tcp {
            "Write error: "@
        } else {
            "WebSocket send error: "@
        }) + detail,
        Notice::ReceiveFailed => (if tcp {
            "Read error: "@
        } else {
            "WebSocket receive error: "@
        }) + detail,
    }
}

/// The text of a notice; `target` is what was connected to and `detail` the
/// text of the error behind the notice.
pub fn notice_text(transport: Transport, notice: Notice, target: &str, detail: &str) -> (r: String)
    ensures
        r@ == notice_words(transport, notice, target@, detail@),
{
    let tcp = transport == Transport::Tcp;
    match notice {
        Notice::ConnectFailed => {
            let mut text = if tcp {
                "Failed to connect to ".to_owned()
            } else {
                "Failed to connect to WebSocket ".to_owned()
            };
            text.append(target);
            text.append(": ");
            text.append(detail);
            text
        },
        Notice::ConnectTimedOut => {
            let mut text = if tcp {
                "Connection timeout to ".to_owned()
            } else {
                "WebSocket connection timeout to ".to_owned()
            };
            text.append(target);
            text
        },
        Notice::FirstWritePartial => "Partial write of first message".to_owned(),
        Notice::FirstSendFailed => {
            let mut text = if tcp {
                "Failed to send first message: ".to_owned()
            } else {
                "Failed to send first WebSocket message: ".to_owned()
            };
            text.append(detail);
            text
        },
        Notice::FirstReceiveFailed => {
            let mut text = "Failed to read first message response: ".to_owned();
            text.append(detail);
            text
        },
        Notice::FirstUnexpected => "Unexpected response to first message".to_owned(),
        Notice::WritePartial => "Partial write".to_owned(),
        Notice::SendFailed => {
            let mut text = if tcp {
                "Write error: ".to_owned()
            } else {
                "WebSocket send error: ".to_owned()
            };
            text.append(detail);
            text
        },
        Notice::ReceiveFailed => {
            let mut text = if tcp {
                "Read error: ".to_owned()
            } else {
                "WebSocket receive error: ".to_owned()
            };
            text.append(detail);
            text
        },
    }
}

} // verus!
