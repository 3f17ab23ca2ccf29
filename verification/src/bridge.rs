//! The webview's end of the bridge to the host.
//!
//! The host injects a message channel into the page some time after the page
//! starts. Until then, messages wait in an outbox and a short timer asks
//! again; once the channel is there, everything that waited is handed over
//! in the order in which it was sent, each message once.

use crate::protocol::{BackendEvent, BackendMessage, FrontendCommand, FrontendMessage};
use vstd::prelude::*;

verus! {

/// The delay, in milliseconds, after which an outbox that waits asks again.
pub const RETRY_DELAY_MS: u32 = 10;

/// The interval, in milliseconds, at which a handshake is polled.
pub const POLL_INTERVAL_MS: u32 = 50;

/// What to do after a step of the outbox.
pub struct Dispatch {
    /// The texts to hand to the channel now, in this order.
    pub post: Vec<String>,
    /// Whether to ask again after `RETRY_DELAY_MS`.
    pub retry: bool,
}

/// The messages that wait for the channel, oldest first.
pub struct Outbox {
    pending: Vec<String>,
}

/// The characters of each text of a list.
pub open spec fn texts(list: Seq<String>) -> Seq<Seq<char>> {
    list.map_values(|text: String| text@)
}

/// What happens to an outbox.
pub enum OutboxEvent {
    /// A text is sent while the channel is or is not available.
    Send { text: Seq<char>, available: bool },
    /// The timer fires while the channel is or is not available.
    Retry { available: bool },
}

/// The state of an outbox with all that it has handed to the channel so far.
pub struct OutboxTrace {
    pub posted: Seq<Seq<char>>,
    pub pending: Seq<Seq<char>>,
}

/// The texts that a step hands to the channel.
pub open spec fn step_post(pending: Seq<Seq<char>>, event: OutboxEvent) -> Seq<Seq<char>> {
    match event {
        OutboxEvent::Send { text, available } => if available {
            pending.push(text)
        } else {
            Seq::empty()
        },
        OutboxEvent::Retry { available } => if available {
            pending
        } else {
            Seq::empty()
        },
    }
}

/// The texts that wait after a step.
pub open spec fn step_pending(pending: Seq<Seq<char>>, event: OutboxEvent) -> Seq<Seq<char>> {
    match event {
        OutboxEvent::Send { text, available } => if available {
            Seq::empty()
        } else {
            pending.push(text)
        },
        OutboxEvent::Retry { available } => if available {
            Seq::empty()
        } else {
            pending
        },
    }
}

/// Whether a step asks for the timer: it does while the channel is missing.
pub open spec fn step_retry(event: OutboxEvent) -> bool {
    match event {
        OutboxEvent::Send { available, .. } => !available,
        OutboxEvent::Retry { available } => !available,
    }
}

/// An outbox that starts empty, after the given events.
pub open spec fn run(events: Seq<OutboxEvent>) -> OutboxTrace
    decreases events.len(),
{
    if events.len() == 0 {
        OutboxTrace { posted: Seq::empty(), pending: Seq::empty() }
    } else {
        let before = run(events.drop_last());
        OutboxTrace {
            posted: before.posted + step_post(before.pending, events.last()),
            pending: step_pending(before.pending, events.last()),
        }
    }
}

/// The texts that the events send, in their order.
pub open spec fn sent(events: Seq<OutboxEvent>) -> Seq<Seq<char>>
    decreases events.len(),
{
    if events.len() == 0 {
        Seq::empty()
    } else {
        match events.last() {
            OutboxEvent::Send { text, .. } => sent(events.drop_last()).push(text),
            OutboxEvent::Retry { .. } => sent(events.drop_last()),
        }
    }
}

/// Nothing is lost, repeated or reordered: whatever happens, the texts that
/// reached the channel, followed by those that still wait, are the texts
/// that were sent, in the order in which they were sent.
pub proof fn lemma_each_once_in_order(events: Seq<OutboxEvent>)
    ensures
        run(events).posted + run(events).pending == sent(events),
    decreases events.len(),
{
    if events.len() == 0 {
        assert(run(events).posted + run(events).pending =~= sent(events));
    } else {
        let before = run(events.drop_last());
        lemma_each_once_in_order(events.drop_last());
        assert(run(events).posted + run(events).pending =~= sent(events));
    }
}

/// Nothing waits once the channel was seen: after an event that found the
/// channel available, the outbox is empty.
pub proof fn lemma_available_empties(events: Seq<OutboxEvent>)
    requires
        events.len() > 0,
        !step_retry(events.last()),
    ensures
        run(events).pending == Seq::<Seq<char>>::empty(),
{
}

impl Outbox {
    /// The texts that wait, oldest first.
    pub closed spec fn pending(&self) -> Seq<Seq<char>> {
        texts(self.pending@)
    }

    /// An outbox in which nothing waits.
    pub fn new() -> (outbox: Outbox)
        ensures
            outbox.pending() == Seq::<Seq<char>>::empty(),
    {
        let outbox = Outbox { pending: Vec::new() };
        assert(outbox.pending() =~= Seq::<Seq<char>>::empty());
        outbox
    }

    /// The number of texts that wait.
    pub fn len(&self) -> (n: usize)
        ensures
            n == self.pending().len(),
    {
        self.pending.len()
    }

    /// Takes out everything that waits, oldest first.
    pub fn flush_pending_messages(&mut self) -> (messages: Vec<String>)
        ensures
            texts(messages@) == old(self).pending(),
            final(self).pending() == Seq::<Seq<char>>::empty(),
    {
        let mut messages: Vec<String> = Vec::new();
        messages.append(&mut self.pending);
        assert(texts(messages@) =~= old(self).pending());
        assert(self.pending() =~= Seq::<Seq<char>>::empty());
        messages
    }

    /// Sends a text: with the channel available, everything that waits goes
    /// out before it; without, it joins those that wait and the timer is
    /// asked for.
    pub fn try_send_or_queue(&mut self, base64_data: String, ipc_available: bool) -> (dispatch:
        Dispatch)
        ensures
            texts(dispatch.post@) == step_post(
                old(self).pending(),
                OutboxEvent::Send { text: base64_data@, available: ipc_available },
            ),
            final(self).pending() == step_pending(
                old(self).pending(),
                OutboxEvent::Send { text: base64_data@, available: ipc_available },
            ),
            dispatch.retry == !ipc_available,
    {
        if ipc_available {
            let mut post = self.flush_pending_messages();
            post.push(base64_data);
            assert(texts(post@) =~= old(self).pending().push(base64_data@));
            Dispatch { post, retry: false }
        } else {
            self.pending.push(base64_data);
            assert(self.pending() =~= old(self).pending().push(base64_data@));
            let post: Vec<String> = Vec::new();
            assert(texts(post@) =~= Seq::<Seq<char>>::empty());
            Dispatch { post, retry: true }
        }
    }

    /// The timer fired: with the channel available, everything that waits
    /// goes out; without, the timer is asked for again.
    pub fn retry(&mut self, ipc_available: bool) -> (dispatch: Dispatch)
        ensures
            texts(dispatch.post@) == step_post(
                old(self).pending(),
                OutboxEvent::Retry { available: ipc_available },
            ),
            final(self).pending() == step_pending(
                old(self).pending(),
                OutboxEvent::Retry { available: ipc_available },
            ),
            dispatch.retry == !ipc_available,
    {
        if ipc_available {
            let post = self.flush_pending_messages();
            Dispatch { post, retry: false }
        } else {
            let post: Vec<String> = Vec::new();
            assert(texts(post@) =~= Seq::<Seq<char>>::empty());
            Dispatch { post, retry: true }
        }
    }

    /// Sends a message as its text. A message that could not be encoded
    /// would be dropped: nothing would go out, nothing be queued and no timer
    /// be asked for.
    pub fn send_to_backend(&mut self, message: FrontendMessage, ipc_available: bool) -> (dispatch:
        Option<Dispatch>)
        ensures
            dispatch matches Some(dispatch) && ({
                &&& texts(dispatch.post@) == step_post(
                    old(self).pending(),
                    OutboxEvent::Send { text: message.text(), available: ipc_available },
                )
                &&& final(self).pending() == step_pending(
                    old(self).pending(),
                    OutboxEvent::Send { text: message.text(), available: ipc_available },
                )
                &&& dispatch.retry == !ipc_available
            }),
    {
        match message.to_base64() {
            Some(base64_data) => Some(self.try_send_or_queue(base64_data, ipc_available)),
            None => None,
        }
    }

    /// Sends a command as a message.
    pub fn send_command(&mut self, command: FrontendCommand, ipc_available: bool) -> (dispatch:
        Option<Dispatch>)
        ensures
            dispatch matches Some(dispatch) && ({
                &&& texts(dispatch.post@) == step_post(
                    old(self).pending(),
                    OutboxEvent::Send {
                        text: FrontendMessage::Command(command).text(),
                        available: ipc_available,
                    },
                )
                &&& final(self).pending() == step_pending(
                    old(self).pending(),
                    OutboxEvent::Send {
                        text: FrontendMessage::Command(command).text(),
                        available: ipc_available,
                    },
                )
                &&& dispatch.retry == !ipc_available
            }),
    {
        self.send_to_backend(FrontendMessage::Command(command), ipc_available)
    }
}

/// The message that the host delivered as `base64_data`, for the handler of
/// the page; a malformed text is no message and nothing is delivered.
pub fn backend_message_handler(base64_data: &str) -> (message: Option<BackendMessage>)
    ensures
        message == BackendMessage::parse_text(base64_data@),
{
    BackendMessage::from_base64(base64_data)
}

/// A page that announces itself until the host has answered.
///
/// At every poll the page looks for the channel until it has seen it once;
/// from then on it sends `Ready` at every poll until `Connected` has arrived.
#[derive(Clone, Copy, Debug, PartialEq, Eq, Structural)]
pub struct Handshake {
    pub ipc_ready: bool,
    pub connected: bool,
}

impl Handshake {
    /// A handshake before the first poll.
    pub fn new() -> (handshake: Handshake)
        ensures
            handshake == (Handshake { ipc_ready: false, connected: false }),
    {
        Handshake { ipc_ready: false, connected: false }
    }

    /// One poll: the channel counts as seen if it was seen before or is
    /// available now, and `Ready` is to be sent, which the result says, if
    /// it is seen and the host has not answered.
    pub fn poll(&mut self, ipc_available: bool) -> (announce: bool)
        ensures
            final(self).ipc_ready == (old(self).ipc_ready || ipc_available),
            final(self).connected == old(self).connected,
            announce == (final(self).ipc_ready && !old(self).connected),
    {
        if !self.ipc_ready {
            if ipc_available {
                self.ipc_ready = true;
            } else {
                return false;
            }
        }
        !self.connected
    }

    /// The event that the host delivered as `base64_data`, if it is one;
    /// `Connected` ends the announcing for good.
    pub fn receive(&mut self, base64_data: &str) -> (event: Option<BackendEvent>)
        ensures
            final(self).ipc_ready == old(self).ipc_ready,
            event == BackendEvent::parse_text(base64_data@),
            final(self).connected == (old(self).connected || event == Some(
                BackendEvent::Connected,
            )),
    {
        match BackendEvent::from_base64(base64_data) {
            Some(event) => {
                if event == BackendEvent::Connected {
                    self.connected = true;
                }
                Some(event)
            },
            None => None,
        }
    }
}

/// The text to hand to the channel for a command that is sent without an
/// outbox: the text of the command while the channel is available, nothing
/// while it is not.
pub fn send_now(command: FrontendCommand, ipc_available: bool) -> (post: Option<String>)
    ensures
        match post {
            Some(text) => ipc_available && text@ == command.text(),
            None => !ipc_available,
        },
{
    match command.to_base64() {
        Some(text) => if ipc_available {
            Some(text)
        } else {
            None
        },
        None => None,
    }
}

} // verus!
