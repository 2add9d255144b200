//! The builder of a browser window, and the rules that its configuration
//! must meet.

use vstd::prelude::*;
use crate::embed::config::{default_browser_config, BrowserConfig, BrowserConfigView};
use crate::embed::{EmbedError, EmbedErrorView};
use crate::text::owned;

verus! {

/// Whether a least size exceeds a greatest size in width or in height.
pub open spec fn sizes_clash(min: Option<(u32, u32)>, max: Option<(u32, u32)>) -> bool {
    match (min, max) {
        (Some((min_w, min_h)), Some((max_w, max_h))) => min_w > max_w || min_h > max_h,
        _ => false,
    }
}

/// What is wrong with a configuration, if anything: an empty URL, then a
/// window without width or height, then a least size over the greatest.
pub open spec fn validation(config: BrowserConfigView) -> Result<(), EmbedErrorView> {
    if config.url.len() == 0 {
        Err(EmbedErrorView::InvalidUrl("URL cannot be empty"@))
    } else if config.width == 0 || config.height == 0 {
        Err(EmbedErrorView::WindowFailed("Window size cannot be zero"@))
    } else if sizes_clash(config.min_size, config.max_size) {
        Err(EmbedErrorView::WindowFailed("Minimum size cannot exceed maximum size"@))
    } else {
        Ok(())
    }
}

/// `r`, seen through the view of its error.
pub open spec fn validation_outcome(r: Result<(), EmbedError>) -> Result<(), EmbedErrorView> {
    match r {
        Ok(()) => Ok(()),
        Err(e) => Err(e@),
    }
}

/// Collects the settings of a browser window.
#[derive(Debug, Clone)]
pub struct BrowserBuilder {
    config: BrowserConfig,
}

impl BrowserBuilder {
    /// The configuration collected so far.
    pub closed spec fn settings(&self) -> BrowserConfigView {
        self.config@
    }

    /// A builder with the default configuration.
    pub fn new() -> (r: Self)
        ensures
            r.settings() == default_browser_config(),
    {
        BrowserBuilder { config: BrowserConfig::default() }
    }

    /// Replaces the configuration.
    pub fn config(self, config: BrowserConfig) -> (r: Self)
        ensures
            r.settings() == config@,
    {
        BrowserBuilder { config }
    }

    /// Sets the URL to load.
    pub fn url(self, url: &str) -> (r: Self)
        ensures
            r.settings() == (BrowserConfigView { url: url@, ..self.settings() }),
    {
        let mut r = self;
        r.config.url = owned(url);
        r
    }

    /// Sets the title of the window.
    pub fn title(self, title: &str) -> (r: Self)
        ensures
            r.settings() == (BrowserConfigView { title: title@, ..self.settings() }),
    {
        let mut r = self;
        r.config.title = owned(title);
        r
    }

    /// Sets the size of the window.
    pub fn size(self, width: u32, height: u32) -> (r: Self)
        ensures
            r.settings() == (BrowserConfigView { width, height, ..self.settings() }),
    {
        let mut r = self;
        r.config.width = width;
        r.config.height = height;
        r
    }

    /// Turns headless mode on.
    pub fn headless(self) -> (r: Self)
        ensures
            r.settings() == (BrowserConfigView { headless: true, ..self.settings() }),
    {
        let mut r = self;
        r.config.headless = true;
        r
    }

    /// The configuration collected so far.
    pub fn current(&self) -> (r: &BrowserConfig)
        ensures
            r@ == self.settings(),
    {
        &self.config
    }

    /// Checks the configuration before a window is opened.
    pub fn validate_config(&self) -> (r: Result<(), EmbedError>)
        ensures
            validation_outcome(r) == validation(self.settings()),
    {
        if self.config.url.as_str().is_empty() {
            return Err(EmbedError::InvalidUrl(owned("URL cannot be empty")));
        }
        if self.config.width == 0 || self.config.height == 0 {
            return Err(EmbedError::WindowFailed(owned("Window size cannot be zero")));
        }
        match (self.config.min_size, self.config.max_size) {
            (Some((min_w, min_h)), Some((max_w, max_h))) => {
                if min_w > max_w || min_h > max_h {
                    return Err(
                        EmbedError::WindowFailed(owned("Minimum size cannot exceed maximum size")),
                    );
                }
            },
            _ => {},
        }
        Ok(())
    }

    /// The checked configuration, ready for a window to be opened with.
    pub fn finish(self) -> (r: Result<BrowserConfig, EmbedError>)
        ensures
            match r {
                Ok(c) => validation(self.settings()) is Ok && c@ == self.settings(),
                Err(e) => validation(self.settings()) == Err::<(), EmbedErrorView>(e@),
            },
    {
        match self.validate_config() {
            Ok(()) => Ok(self.config),
            Err(e) => Err(e),
        }
    }
}

impl Default for BrowserBuilder {
    fn default() -> (r: Self)
        ensures
            r.settings() == default_browser_config(),
    {
        BrowserBuilder::new()
    }
}

} // verus!
