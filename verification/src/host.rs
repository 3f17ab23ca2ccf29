//! The host's end of the bridge: what it answers to the webview and how an
//! answer reaches the page.

use crate::protocol::{BackendEvent, BackendMessage, FrontendCommand, FrontendMessage};
use crate::text::{decimal, join, render};
use vstd::prelude::*;
use vstd::string::StringExecFns;

verus! {

/// `rand::random::<u32>()`: a number from the thread's generator. Nothing is
/// known of it beyond its type.
#[verifier::external_body]
fn random_u32() -> u32 {
    rand::random::<u32>()
}

/// The address under which the host serves the page on port `port`.
pub open spec fn server_url_text(port: u16) -> Seq<char> {
    "http://127.0.0.1:"@ + decimal(port as nat)
}

/// The address under which the host serves the page on port `port`.
pub fn server_url(port: u16) -> (url: String)
    ensures
        url@ == server_url_text(port),
{
    let number = render(port as u64, 10);
    join("http://127.0.0.1:", number.as_str())
}

/// The script that delivers `text` to the page.
pub open spec fn delivery_script(text: Seq<char>) -> Seq<char> {
    "window.onBackendMessage('"@ + text + "');"@
}

/// The script that delivers a message to the page; there would be none if
/// the message could not be encoded.
pub fn backend_script(message: &BackendMessage) -> (script: Option<String>)
    ensures
        script matches Some(script) && script@ == delivery_script(message.text()),
{
    match message.to_base64() {
        Some(base64_data) => {
            let mut script = join("window.onBackendMessage('", base64_data.as_str());
            script.append("');");
            Some(script)
        },
        None => None,
    }
}

/// The event that answers a command, where `value` is the number to hand
/// out if one is asked for.
pub open spec fn answer(command: FrontendCommand, value: u32) -> BackendEvent {
    match command {
        FrontendCommand::Ready => BackendEvent::Connected,
        FrontendCommand::RequestRandomNumber { request_id } => BackendEvent::RandomNumber {
            request_id,
            value,
        },
    }
}

/// Answers a command, handing out `value` if a number is asked for: the host
/// is connected once the page is ready, and a number goes back under the
/// identifier of its request.
pub fn answer_command(command: FrontendCommand, value: u32) -> (event: BackendEvent)
    ensures
        event == answer(command, value),
{
    match command {
        FrontendCommand::Ready => BackendEvent::Connected,
        FrontendCommand::RequestRandomNumber { request_id } => BackendEvent::RandomNumber {
            request_id,
            value,
        },
    }
}

/// Answers a command of the page, with a fresh random number where one is
/// asked for.
pub fn handle_frontend_command(command: FrontendCommand) -> (reply: BackendMessage)
    ensures
        exists|value: u32| reply == BackendMessage::Event(answer(command, value)),
{
    let value = match command {
        FrontendCommand::Ready => 0,
        FrontendCommand::RequestRandomNumber { .. } => random_u32(),
    };
    BackendMessage::Event(answer_command(command, value))
}

/// Answers a message of the page: a command gets its answer, an event gets
/// none.
pub fn handle_frontend_message(message: FrontendMessage) -> (reply: Option<BackendMessage>)
    ensures
        match message {
            FrontendMessage::Command(command) => exists|value: u32|
                reply == Some(BackendMessage::Event(answer(command, value))),
            FrontendMessage::Event(_) => reply is None,
        },
{
    match message {
        FrontendMessage::Command(command) => Some(handle_frontend_command(command)),
        FrontendMessage::Event(_) => None,
    }
}

/// What a text that arrived from the webview `webview_id` adds to the queue
/// of the host: the message it carries under that identifier, or nothing for
/// a malformed text.
pub fn inbound(webview_id: &str, body: &str) -> (entry: Option<(String, FrontendMessage)>)
    ensures
        match FrontendMessage::parse_text(body@) {
            Some(message) => entry matches Some((id, queued)) && id@ == webview_id@ && queued
                == message,
            None => entry is None,
        },
{
    match FrontendMessage::from_base64(body) {
        Some(message) => Some((String::from_str(webview_id), message)),
        None => None,
    }
}

/// A reply and the webview it goes to.
pub struct Reply {
    pub webview_id: String,
    pub message: BackendMessage,
}

/// Whether `reply` answers `message` from `webview_id`.
pub open spec fn answers(reply: Reply, webview_id: Seq<char>, message: FrontendMessage) -> bool {
    &&& reply.webview_id@ == webview_id
    &&& message matches FrontendMessage::Command(command)
    &&& exists|value: u32| reply.message == BackendMessage::Event(answer(command, value))
}

/// The commands among the first `upto` messages.
pub open spec fn commands_among(messages: Seq<(String, FrontendMessage)>, upto: int) -> Seq<int>
    decreases upto,
{
    if upto <= 0 {
        Seq::empty()
    } else if messages[upto - 1].1 is Command {
        commands_among(messages, upto - 1).push(upto - 1)
    } else {
        commands_among(messages, upto - 1)
    }
}

/// Answers everything that was drained from the queue, in the order of
/// arrival: one reply for each command, addressed to the webview that sent
/// it.
pub fn process_frontend_messages(messages: Vec<(String, FrontendMessage)>) -> (replies: Vec<Reply>)
    ensures
        replies@.len() == commands_among(messages@, messages@.len() as int).len(),
        forall|k: int|
            0 <= k < replies@.len() ==> {
                let from = #[trigger] commands_among(messages@, messages@.len() as int)[k];
                0 <= from < messages@.len() && answers(
                    replies@[k],
                    messages@[from].0@,
                    messages@[from].1,
                )
            },
{
    let mut replies: Vec<Reply> = Vec::new();
    let mut index: usize = 0;
    while index < messages.len()
        invariant
            index <= messages@.len(),
            replies@.len() == commands_among(messages@, index as int).len(),
            forall|k: int|
                0 <= k < replies@.len() ==> {
                    let from = #[trigger] commands_among(messages@, index as int)[k];
                    0 <= from < index && answers(replies@[k], messages@[from].0@, messages@[from].1)
                },
        decreases messages@.len() - index,
    {
        let ghost before = commands_among(messages@, index as int);
        let message = messages[index].1;
        match handle_frontend_message(message) {
            Some(reply) => {
                let webview_id = messages[index].0.clone();
                replies.push(Reply { webview_id, message: reply });
            },
            None => {},
        }
        index = index + 1;
        assert(forall|k: int|
            0 <= k < before.len() ==> commands_among(messages@, index as int)[k] == before[k]);
    }
    replies
}

} // verus!
