//! What the viewer shows, and how to get back from it.
use crate::types::DisplayMode;
use vstd::prelude::*;

verus! {

/// What is shown, and what is shown at first.
#[derive(Debug, PartialEq, Eq)]
pub struct Navigation {
    pub home: DisplayMode,
    pub current: DisplayMode,
}

/// The chunk store browser can be opened on top of the mode.
pub open spec fn can_be_browsed(mode: DisplayMode) -> bool {
    mode is LocalRecordings || mode is RedapEntry || mode is RedapServer
}

/// What is shown after the chunk store browser was opened.
pub open spec fn browsing(mode: DisplayMode) -> DisplayMode {
    if can_be_browsed(mode) {
        DisplayMode::ChunkStoreBrowser(Box::new(mode))
    } else {
        mode
    }
}

/// What is shown after the chunk store browser was toggled.
pub open spec fn browser_toggled(mode: DisplayMode) -> DisplayMode {
    match mode {
        DisplayMode::ChunkStoreBrowser(previous) => *previous,
        _ => browsing(mode),
    }
}

impl Navigation {
    /// What is shown at first.
    pub fn new(home: DisplayMode) -> (res: Self)
        ensures
            res == (Navigation { home, current: home }),
    {
        let current = home.clone();
        Navigation { home, current }
    }

    /// Shows something else.
    pub fn replace(&mut self, mode: DisplayMode)
        ensures
            *final(self) == (Navigation { current: mode, ..*old(self) }),
    {
        self.current = mode;
    }

    /// Shows what was shown at first.
    pub fn reset(&mut self)
        ensures
            *final(self) == (Navigation { current: old(self).home, ..*old(self) }),
    {
        self.current = self.home.clone();
    }

    /// Shows the settings; what was shown before is kept.
    pub fn open_settings(&mut self)
        ensures
            *final(self) == (Navigation {
                current: DisplayMode::Settings(Box::new(old(self).current)),
                ..*old(self)
            }),
    {
        self.current = DisplayMode::Settings(Box::new(self.current.clone()));
    }

    /// Opens the chunk store browser where that is possible.
    pub fn open_chunk_store_browser(&mut self)
        ensures
            *final(self) == (Navigation { current: browsing(old(self).current), ..*old(self) }),
    {
        match &self.current {
            DisplayMode::LocalRecordings(_)
            | DisplayMode::RedapEntry(_)
            | DisplayMode::RedapServer(_) => {
                self.current = DisplayMode::ChunkStoreBrowser(Box::new(self.current.clone()));
            },
            DisplayMode::ChunkStoreBrowser(_)
            | DisplayMode::Settings(_)
            | DisplayMode::Loading(_)
            | DisplayMode::LocalTable(_) => {},
        }
    }

    /// Opens the chunk store browser where that is possible, or closes it.
    pub fn toggle_chunk_store_browser(&mut self)
        ensures
            *final(self) == (Navigation {
                current: browser_toggled(old(self).current),
                ..*old(self)
            }),
    {
        match &self.current {
            DisplayMode::ChunkStoreBrowser(mode) => {
                self.current = (**mode).clone();
            },
            _ => {
                self.open_chunk_store_browser();
            },
        }
    }
}

/// Toggling the chunk store browser twice leads back to what was shown, whatever that was, unless
/// the browser was open already on top of what it cannot be opened on.
pub proof fn toggling_the_browser_twice_is_nothing(mode: DisplayMode)
    requires
        mode matches DisplayMode::ChunkStoreBrowser(previous) ==> can_be_browsed(*previous),
    ensures
        browser_toggled(browser_toggled(mode)) == mode,
{
}

/// The browser is only ever opened on top of what it can be opened on.
pub proof fn the_browser_covers_what_can_be_browsed(mode: DisplayMode)
    ensures
        !(mode is ChunkStoreBrowser) ==> (browser_toggled(
            mode,
        ) matches DisplayMode::ChunkStoreBrowser(previous) ==> can_be_browsed(*previous)),
{
}

/// The browser is opened on top of recordings, entries and servers, and on nothing else; and closing
/// it leads back to what it covered.
pub proof fn the_browser_is_opened_on_top(mode: DisplayMode)
    ensures
        mode is LocalRecordings || mode is RedapEntry || mode is RedapServer ==> browsing(mode)
            == DisplayMode::ChunkStoreBrowser(Box::new(mode)),
        !(mode is LocalRecordings || mode is RedapEntry || mode is RedapServer) ==> browsing(mode)
            == mode,
        browser_toggled(DisplayMode::ChunkStoreBrowser(Box::new(mode))) == mode,
        !(mode is ChunkStoreBrowser) ==> browser_toggled(mode) == browsing(mode),
{
}

} // verus!
