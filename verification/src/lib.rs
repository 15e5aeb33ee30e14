//! A verified execution core for a human-readable browser-test scripting
//! language.
//!
//! The heart of the crate is [`interpreter::Interpreter`]: a resumable state
//! machine that drains a queue of parsed statements, dispatches each leaf
//! command, tracks the focused page element, and implements the
//! catch-error / try-again protocol with a bounded, one-shot retry.
//!
//! Every browser-facing operation is I/O performed by the host: the machine
//! never touches the network. Instead it hands the host an
//! [`effects::Action`] describing the next browser operation and consumes an
//! [`effects::Event`] describing its outcome. The host loop (an async
//! WebDriver client) lives outside this crate and is deliberately thin.

use vstd::prelude::*;

pub mod effects;
pub mod environment;
pub mod interpreter;
pub mod script;
pub mod text;

verus! {

/// Browsers a driver session can target.
#[derive(Debug, Clone, Copy, PartialEq, Eq, Structural)]
pub enum SupportedBrowser {
    FireFox,
    Chrome,
}

/// Connection settings for a browser-automation session.
#[derive(Debug, Clone, Copy, PartialEq, Eq, Structural)]
pub struct WebDriverConfig {
    pub port: usize,
    pub headless: bool,
    pub browser: SupportedBrowser,
}

impl Default for WebDriverConfig {
    /// The default session: a visible Chrome window behind a driver
    /// listening on port 4444.
    fn default() -> (r: Self)
        ensures
            r.port == 4444,
            !r.headless,
            r.browser == SupportedBrowser::Chrome,
    {
        WebDriverConfig { port: 4444, headless: false, browser: SupportedBrowser::Chrome }
    }
}

} // verus!
