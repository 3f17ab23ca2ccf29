//! A host with a single webview, which speaks in bare commands and events.

use crate::protocol::{BackendEvent, FrontendCommand};
use crate::text::join;
use crate::webview_manager::Bounds;
use vstd::prelude::*;
use vstd::string::StringExecFns;

verus! {

/// The script that the webview runs before its page: it hands what the host
/// delivers to the handler of the page, once there is one.
pub const INIT_SCRIPT: &'static str =
    "window.onBackendMessage=function(d){window.__h&&window.__h(d)};";

/// What is to be done about the webview in a frame.
#[derive(Clone, Copy, Debug, PartialEq, Eq, Structural)]
pub enum Step {
    /// There is no webview: one is to be built at the bounds of the frame.
    Build,
    /// The webview is to be moved to the bounds of the frame.
    Move,
    /// The webview is where it belongs.
    Keep,
}

/// The webview of the host, once it is built, and where it was last placed.
pub struct WebviewContext<W> {
    webview: Option<W>,
    bounds: Bounds,
}

/// The script that delivers the text of an event to the page.
pub open spec fn event_script(text: Seq<char>) -> Seq<char> {
    "window.onBackendMessage('"@ + text + "')"@
}

impl<W> WebviewContext<W> {
    /// The webview, once it is built.
    pub closed spec fn webview(&self) -> Option<W> {
        self.webview
    }

    /// Where the webview was last placed.
    pub closed spec fn bounds(&self) -> Bounds {
        self.bounds
    }

    /// A context without a webview, placed at zero.
    pub fn new() -> (context: Self)
        ensures
            context.webview() is None,
            context.bounds() == (Bounds { x: 0, y: 0, width: 0, height: 0 }),
    {
        WebviewContext { webview: None, bounds: Bounds { x: 0, y: 0, width: 0, height: 0 } }
    }

    /// Decides what a frame with the given bounds asks for, and records the
    /// bounds where the webview is to be moved.
    pub fn ensure_webview(&mut self, bounds: Bounds) -> (step: Step)
        ensures
            final(self).webview() == old(self).webview(),
            step == (if old(self).webview() is None {
                Step::Build
            } else if old(self).bounds().same(bounds) {
                Step::Keep
            } else {
                Step::Move
            }),
            final(self).bounds() == (if step == Step::Move {
                bounds
            } else {
                old(self).bounds()
            }),
    {
        if self.webview.is_none() {
            return Step::Build;
        }
        if self.bounds.same_as(&bounds) {
            Step::Keep
        } else {
            self.bounds = bounds;
            Step::Move
        }
    }

    /// Takes in the webview that was built at `bounds`.
    pub fn attach(&mut self, webview: W, bounds: Bounds)
        ensures
            final(self).webview() == Some(webview),
            final(self).bounds() == bounds,
    {
        self.webview = Some(webview);
        self.bounds = bounds;
    }

    /// The webview, once it is built.
    pub fn get(&self) -> (webview: Option<&W>)
        ensures
            match webview {
                Some(webview) => self.webview() == Some(*webview),
                None => self.webview() is None,
            },
    {
        self.webview.as_ref()
    }

    /// The webview and the script that delivers `event` to its page. There
    /// is nothing to do before the webview is built.
    pub fn send(&self, event: BackendEvent) -> (delivery: Option<(&W, String)>)
        ensures
            match delivery {
                Some((webview, script)) => self.webview() == Some(*webview) && script@
                    == event_script(event.text()),
                None => self.webview() is None,
            },
    {
        match &self.webview {
            Some(webview) => match event.to_base64() {
                Some(text) => {
                    let mut script = join("window.onBackendMessage('", text.as_str());
                    script.append("')");
                    Some((webview, script))
                },
                None => None,
            },
            None => None,
        }
    }
}

/// The command that a text from the page carries, for the queue of the
/// host; a malformed text carries none.
pub fn inbound(body: &str) -> (command: Option<FrontendCommand>)
    ensures
        command == FrontendCommand::parse_text(body@),
{
    FrontendCommand::from_base64(body)
}

} // verus!
