//! The configuration of a browser window.

use vstd::prelude::*;
use crate::text::{opt_view, owned};

verus! {

/// The configuration of a browser window.
#[derive(Debug, Clone, PartialEq, Eq)]
pub struct BrowserConfig {
    /// The URL to load; the transport dialect is understood.
    pub url: String,
    /// The title of the window.
    pub title: String,
    /// The width of the window, in pixels.
    pub width: u32,
    /// The height of the window, in pixels.
    pub height: u32,
    /// The least size of the window: width, height.
    pub min_size: Option<(u32, u32)>,
    /// The greatest size of the window: width, height.
    pub max_size: Option<(u32, u32)>,
    /// Whether the window can be resized.
    pub resizable: bool,
    /// Whether the window has a title bar and borders.
    pub decorated: bool,
    /// Whether the window starts in full screen.
    pub fullscreen: bool,
    /// Whether the developer tools are on.
    pub devtools: bool,
    /// The user agent string, where it is not the engine's own.
    pub user_agent: Option<String>,
    /// The directory of user scripts.
    pub userscripts_dir: Option<String>,
    /// Whether the browser runs without a visible window.
    pub headless: bool,
    /// Where a screenshot is written on exit.
    pub screenshot_path: Option<String>,
    /// The URL of the home page.
    pub homepage: Option<String>,
}

/// The mathematical value of a [`BrowserConfig`].
pub ghost struct BrowserConfigView {
    pub url: Seq<char>,
    pub title: Seq<char>,
    pub width: u32,
    pub height: u32,
    pub min_size: Option<(u32, u32)>,
    pub max_size: Option<(u32, u32)>,
    pub resizable: bool,
    pub decorated: bool,
    pub fullscreen: bool,
    pub devtools: bool,
    pub user_agent: Option<Seq<char>>,
    pub userscripts_dir: Option<Seq<char>>,
    pub headless: bool,
    pub screenshot_path: Option<Seq<char>>,
    pub homepage: Option<Seq<char>>,
}

impl View for BrowserConfig {
    type V = BrowserConfigView;

    open spec fn view(&self) -> BrowserConfigView {
        BrowserConfigView {
            url: self.url@,
            title: self.title@,
            width: self.width,
            height: self.height,
            min_size: self.min_size,
            max_size: self.max_size,
            resizable: self.resizable,
            decorated: self.decorated,
            fullscreen: self.fullscreen,
            devtools: self.devtools,
            user_agent: opt_view(self.user_agent),
            userscripts_dir: opt_view(self.userscripts_dir),
            headless: self.headless,
            screenshot_path: opt_view(self.screenshot_path),
            homepage: opt_view(self.homepage),
        }
    }
}

/// The configuration of a window that loads `url`, with every other
/// setting at its default.
pub open spec fn config_for(url: Seq<char>) -> BrowserConfigView {
    BrowserConfigView {
        url,
        title: "Rigging Browser"@,
        width: 1024,
        height: 768,
        min_size: None,
        max_size: None,
        resizable: true,
        decorated: true,
        fullscreen: false,
        devtools: false,
        user_agent: None,
        userscripts_dir: None,
        headless: false,
        screenshot_path: None,
        homepage: None,
    }
}

/// The default configuration: a blank page in a window of 1024 by 768.
pub open spec fn default_browser_config() -> BrowserConfigView {
    config_for("about:blank"@)
}

impl Default for BrowserConfig {
    fn default() -> (r: Self)
        ensures
            r@ == default_browser_config(),
    {
        BrowserConfig::new("about:blank")
    }
}

impl BrowserConfig {
    /// The configuration of a window that loads `url`.
    pub fn new(url: &str) -> (r: Self)
        ensures
            r@ == config_for(url@),
    {
        BrowserConfig {
            url: owned(url),
            title: owned("Rigging Browser"),
            width: 1024,
            height: 768,
            min_size: None,
            max_size: None,
            resizable: true,
            decorated: true,
            fullscreen: false,
            devtools: false,
            user_agent: None,
            userscripts_dir: None,
            headless: false,
            screenshot_path: None,
            homepage: None,
        }
    }

    /// Sets the title of the window.
    pub fn with_title(self, title: &str) -> (r: Self)
        ensures
            r@ == (BrowserConfigView { title: title@, ..self@ }),
    {
        let mut r = self;
        r.title = owned(title);
        r
    }

    /// Sets the size of the window.
    pub fn with_size(self, width: u32, height: u32) -> (r: Self)
        ensures
            r@ == (BrowserConfigView { width, height, ..self@ }),
    {
        let mut r = self;
        r.width = width;
        r.height = height;
        r
    }

    /// Sets the least size of the window.
    pub fn with_min_size(self, width: u32, height: u32) -> (r: Self)
        ensures
            r@ == (BrowserConfigView { min_size: Some((width, height)), ..self@ }),
    {
        let mut r = self;
        r.min_size = Some((width, height));
        r
    }

    /// Sets the greatest size of the window.
    pub fn with_max_size(self, width: u32, height: u32) -> (r: Self)
        ensures
            r@ == (BrowserConfigView { max_size: Some((width, height)), ..self@ }),
    {
        let mut r = self;
        r.max_size = Some((width, height));
        r
    }

    /// Says whether the window can be resized.
    pub fn with_resizable(self, resizable: bool) -> (r: Self)
        ensures
            r@ == (BrowserConfigView { resizable, ..self@ }),
    {
        let mut r = self;
        r.resizable = resizable;
        r
    }

    /// Says whether the window has a title bar and borders.
    pub fn with_decorated(self, decorated: bool) -> (r: Self)
        ensures
            r@ == (BrowserConfigView { decorated, ..self@ }),
    {
        let mut r = self;
        r.decorated = decorated;
        r
    }

    /// Says whether the window starts in full screen.
    pub fn with_fullscreen(self, fullscreen: bool) -> (r: Self)
        ensures
            r@ == (BrowserConfigView { fullscreen, ..self@ }),
    {
        let mut r = self;
        r.fullscreen = fullscreen;
        r
    }

    /// Says whether the developer tools are on.
    pub fn with_devtools(self, devtools: bool) -> (r: Self)
        ensures
            r@ == (BrowserConfigView { devtools, ..self@ }),
    {
        let mut r = self;
        r.devtools = devtools;
        r
    }

    /// Sets the user agent string.
    pub fn with_user_agent(self, user_agent: &str) -> (r: Self)
        ensures
            r@ == (BrowserConfigView { user_agent: Some(user_agent@), ..self@ }),
    {
        let mut r = self;
        r.user_agent = Some(owned(user_agent));
        r
    }

    /// Sets the directory of user scripts.
    pub fn with_userscripts_dir(self, path: &str) -> (r: Self)
        ensures
            r@ == (BrowserConfigView { userscripts_dir: Some(path@), ..self@ }),
    {
        let mut r = self;
        r.userscripts_dir = Some(owned(path));
        r
    }

    /// Says whether the browser runs without a visible window.
    pub fn with_headless(self, headless: bool) -> (r: Self)
        ensures
            r@ == (BrowserConfigView { headless, ..self@ }),
    {
        let mut r = self;
        r.headless = headless;
        r
    }

    /// Sets where a screenshot is written on exit. A screenshot is taken
    /// without a visible window, so this also turns headless mode on.
    pub fn with_screenshot(self, path: &str) -> (r: Self)
        ensures
            r@ == (BrowserConfigView { screenshot_path: Some(path@), headless: true, ..self@ }),
    {
        let mut r = self;
        r.screenshot_path = Some(owned(path));
        r.headless = true;
        r
    }

    /// Sets the URL of the home page.
    pub fn with_homepage(self, url: &str) -> (r: Self)
        ensures
            r@ == (BrowserConfigView { homepage: Some(url@), ..self@ }),
    {
        let mut r = self;
        r.homepage = Some(owned(url));
        r
    }
}

} // verus!
