//! What a shell around the engine is started with.

use vstd::prelude::*;
use crate::text::opt_view;

verus! {

/// Gamepad support. There is none to configure.
#[derive(Debug, Clone, Copy, Default)]
pub struct GamepadSupport;

/// The controls that a WebDriver session has over the embedder. There are
/// none to configure.
#[derive(Debug, Clone, Copy, Default)]
pub struct WebDriverEmbedderControls;

/// The preferences of a shell: what to load and how large, where that is
/// not left to the defaults.
#[derive(Debug, Clone, PartialEq, Eq)]
pub struct ServoShellPreferences {
    /// The URL to load.
    pub url: Option<String>,
    /// The width of the window, in pixels.
    pub width: Option<u32>,
    /// The height of the window, in pixels.
    pub height: Option<u32>,
    /// Whether the shell runs without a visible window.
    pub headless: bool,
}

impl ServoShellPreferences {
    /// Nothing is preferred: every choice is left to the defaults, and
    /// the window is visible.
    pub open spec fn unset(&self) -> bool {
        &&& opt_view(self.url) is None
        &&& self.width is None
        &&& self.height is None
        &&& !self.headless
    }

    /// Preferences that leave every choice to the defaults.
    pub fn new() -> (r: Self)
        ensures
            r.unset(),
    {
        ServoShellPreferences { url: None, width: None, height: None, headless: false }
    }
}

impl Default for ServoShellPreferences {
    fn default() -> (r: Self)
        ensures
            r.unset(),
    {
        ServoShellPreferences::new()
    }
}

} // verus!
