//! The embedding surface: the configuration of a browser window, the
//! events that a window reports, and the rules that a configuration must
//! meet before a window is opened.

use vstd::prelude::*;

pub mod backend;
pub mod builder;
pub mod config;
pub mod events;

verus! {

/// What can go wrong when a browser window is set up.
#[derive(Debug, Clone, PartialEq, Eq)]
pub enum EmbedError {
    /// The engine could not be initialized.
    InitFailed(String),
    /// The window could not be made.
    WindowFailed(String),
    /// The URL could not be loaded.
    LoadFailed(String),
    /// The URL is no URL of the dialect.
    InvalidUrl(String),
    /// The event loop failed.
    EventLoopError(String),
    /// No engine is built in.
    ServoNotAvailable,
}

/// The mathematical value of an [`EmbedError`].
pub ghost enum EmbedErrorView {
    InitFailed(Seq<char>),
    WindowFailed(Seq<char>),
    LoadFailed(Seq<char>),
    InvalidUrl(Seq<char>),
    EventLoopError(Seq<char>),
    ServoNotAvailable,
}

impl View for EmbedError {
    type V = EmbedErrorView;

    open spec fn view(&self) -> EmbedErrorView {
        match self {
            EmbedError::InitFailed(s) => EmbedErrorView::InitFailed(s@),
            EmbedError::WindowFailed(s) => EmbedErrorView::WindowFailed(s@),
            EmbedError::LoadFailed(s) => EmbedErrorView::LoadFailed(s@),
            EmbedError::InvalidUrl(s) => EmbedErrorView::InvalidUrl(s@),
            EmbedError::EventLoopError(s) => EmbedErrorView::EventLoopError(s@),
            EmbedError::ServoNotAvailable => EmbedErrorView::ServoNotAvailable,
        }
    }
}

/// Whether any browser engine is built in. None is.
pub fn is_browser_available() -> (r: bool)
    ensures
        !r,
{
    false
}

/// Whether the system web view is built in. It is not.
pub fn is_webview_available() -> (r: bool)
    ensures
        !r,
{
    false
}

/// Whether the Servo engine is built in. It is not.
pub fn is_servo_available() -> (r: bool)
    ensures
        !r,
{
    false
}

/// The version of this crate.
pub fn rigging_version() -> (r: &'static str)
    ensures
        r@ == "0.1.0"@,
{
    "0.1.0"
}

/// The version of the Servo engine, where one is built in.
pub fn servo_version() -> (r: Option<&'static str>)
    ensures
        r is None,
{
    None
}

} // verus!
