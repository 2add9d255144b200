//! The events that a browser window reports.

use vstd::prelude::*;

verus! {

/// What a browser window reports while it runs.
#[derive(Debug, Clone)]
#[non_exhaustive]
#[allow(inconsistent_fields)]
pub enum BrowserEvent {
    /// The engine is initialized.
    Initialized,
    /// A window was made.
    WindowCreated { window_id: u64 },
    /// A window was closed.
    WindowClosed { window_id: u64 },
    /// A navigation began, ended, failed or was called off.
    Navigation(NavigationEvent),
    /// The load state of the page changed.
    LoadStateChanged { state: LoadState, url: String },
    /// The title of the page changed.
    TitleChanged { title: String },
    /// The icon of the page changed.
    FaviconChanged { url: Option<String> },
    /// The user asked to close the browser.
    CloseRequested,
    /// The browser met an error.
    Error { message: String, recoverable: bool },
    /// The page wrote to its console.
    ConsoleMessage { level: ConsoleLevel, message: String, source: Option<String>, line: Option<u32> },
    /// The page raised an alert.
    Alert { message: String },
}

/// The stages of a navigation.
#[derive(Debug, Clone)]
#[non_exhaustive]
pub enum NavigationEvent {
    /// The navigation to `url` began.
    Started { url: String },
    /// The navigation ended at `url`, which redirects may have changed.
    Completed { url: String },
    /// The navigation to `url` failed.
    Failed { url: String, error: String },
    /// The navigation to `url` was called off.
    Cancelled { url: String },
}

/// The load states of a page.
#[derive(Debug, Clone, Copy, PartialEq, Eq, Structural)]
pub enum LoadState {
    /// Nothing is loaded.
    Initial,
    /// Loading has begun.
    Loading,
    /// The main content is there.
    Interactive,
    /// Everything is there.
    Complete,
    /// Loading failed.
    Failed,
}

/// The levels of a console message.
#[derive(Debug, Clone, Copy, PartialEq, Eq, Structural)]
pub enum ConsoleLevel {
    Debug,
    Info,
    Warn,
    Error,
}

} // verus!
