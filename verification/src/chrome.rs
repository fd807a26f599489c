//! The window's chrome: whether the native title bar and borders show, and
//! how a toggle from the tray changes that and the stored preference.

use vstd::prelude::*;
use crate::config::AppConfig;
use crate::text::{chars_of, is_text};

verus! {

/// The tray item that toggles the chrome.
pub const TOGGLE_CHROME_ITEM: &'static str = "toggle_chrome";

/// The tray item that leaves the shell.
pub const QUIT_ITEM: &'static str = "quit";

/// What an item of the tray menu asks for.
#[derive(Debug, Clone, Copy, PartialEq, Eq, Structural)]
pub enum TrayCommand {
    /// Show the window's decorations if they are hidden, hide them if they
    /// show.
    ToggleChrome,
    /// Leave the shell.
    Quit,
}

/// The command behind the tray item `item`, `None` where the menu has no
/// such item.
pub fn tray_command(item: &str) -> (command: Option<TrayCommand>)
    ensures
        command == (if item@ == TOGGLE_CHROME_ITEM@ {
            Some(TrayCommand::ToggleChrome)
        } else if item@ == QUIT_ITEM@ {
            Some(TrayCommand::Quit)
        } else {
            None
        }),
{
    let item = chars_of(item);
    if is_text(&item, TOGGLE_CHROME_ITEM) {
        Some(TrayCommand::ToggleChrome)
    } else if is_text(&item, QUIT_ITEM) {
        Some(TrayCommand::Quit)
    } else {
        None
    }
}

/// The decoration state of the main window beside the preference on record.
pub struct ChromeModel {
    /// Whether the window shows its native decorations.
    pub decorated: bool,
    /// The preference as it was last handed out to be written.
    pub config: AppConfig,
}

impl ChromeModel {
    /// The preference on record says what the window shows.
    pub open spec fn consistent(self) -> bool {
        self.config.hide_decorations == !self.decorated
    }

    /// The state a window starts in under the preference `hide_decorations`.
    pub open spec fn initial(hide_decorations: bool) -> ChromeModel {
        ChromeModel { decorated: !hide_decorations, config: AppConfig { hide_decorations } }
    }

    /// The decoration flag that a toggle asks the window to take.
    pub open spec fn toggle_request(self) -> bool {
        !self.decorated
    }

    /// The state after the window answered a toggle.  `Some(flag)` says that
    /// the window now has decorations `flag`; `None`, that the call did not
    /// get through, which changes nothing.
    pub open spec fn after_reply(self, reply: Option<bool>) -> ChromeModel {
        match reply {
            Some(decorated) => ChromeModel {
                decorated,
                config: AppConfig { hide_decorations: !decorated },
            },
            None => self,
        }
    }

    /// The preference to write once the window answered a toggle, if any.
    pub open spec fn to_persist(self, reply: Option<bool>) -> Option<AppConfig> {
        match reply {
            Some(decorated) => Some(AppConfig { hide_decorations: !decorated }),
            None => None,
        }
    }
}

/// The chrome of the main window.
#[derive(Debug, Clone, Copy)]
pub struct Chrome {
    decorated: bool,
    config: AppConfig,
}

impl View for Chrome {
    type V = ChromeModel;

    closed spec fn view(&self) -> ChromeModel {
        ChromeModel { decorated: self.decorated, config: self.config }
    }
}

impl Chrome {
    #[verifier::type_invariant]
    spec fn consistent(self) -> bool {
        self@.consistent()
    }

    /// Whether the window shows its native decorations.
    pub fn is_decorated(&self) -> (decorated: bool)
        ensures
            decorated == self@.decorated,
    {
        self.decorated
    }

    /// The preference on record.
    pub fn config(&self) -> (config: AppConfig)
        ensures
            config == self@.config,
            config.hide_decorations == !self@.decorated,
    {
        proof {
            use_type_invariant(self);
        }
        self.config
    }

    /// The decoration flag to ask of the window when the user toggles the
    /// chrome.
    pub fn toggle_request(&self) -> (wanted: bool)
        ensures
            wanted == self@.toggle_request(),
    {
        !self.decorated
    }

    /// Takes the window's answer to a toggle and says what to write back.
    pub fn toggle_reply(&mut self, reply: Option<bool>) -> (persist: Option<AppConfig>)
        ensures
            final(self)@ == old(self)@.after_reply(reply),
            persist == old(self)@.to_persist(reply),
            final(self)@.consistent(),
    {
        proof {
            use_type_invariant(&*self);
        }
        match reply {
            Some(decorated) => {
                let config = AppConfig { hide_decorations: !decorated };
                *self = Chrome { decorated, config };
                Some(config)
            },
            None => None,
        }
    }
}

/// The chrome that the main window starts with under the preference
/// `hide_decorations`, and the decoration flag to set on the window once it
/// is built, if one has to be set: a window is built with decorations.
pub fn init_main_window(hide_decorations: bool) -> (start: (Chrome, Option<bool>))
    ensures
        start.0@ == ChromeModel::initial(hide_decorations),
        start.0@.consistent(),
        start.1 == (if hide_decorations {
            Some(false)
        } else {
            None
        }),
{
    let chrome = Chrome {
        decorated: !hide_decorations,
        config: AppConfig { hide_decorations },
    };
    (
        chrome,
        if hide_decorations {
            Some(false)
        } else {
            None
        },
    )
}

/// Two toggles in a row that the window both carries out leave it with the
/// decorations it had, and what is written after the second is the
/// preference that the second one set.
pub proof fn lemma_toggle_twice(before: ChromeModel)
    ensures
        ({
            let first = before.toggle_request();
            let between = before.after_reply(Some(first));
            let second = between.toggle_request();
            let after = between.after_reply(Some(second));
            &&& after.decorated == before.decorated
            &&& between.to_persist(Some(second)) == Some(after.config)
            &&& after.config == (AppConfig { hide_decorations: !second })
        }),
{
}

/// A toggle keeps the preference on record in step with the window.
pub proof fn lemma_toggle_keeps_consistency(before: ChromeModel, reply: Option<bool>)
    requires
        before.consistent(),
    ensures
        before.after_reply(reply).consistent(),
{
}

/// Whenever a toggle changes the state, the new preference is handed out to
/// be written.
pub proof fn lemma_change_is_written(before: ChromeModel, reply: Option<bool>)
    requires
        before.after_reply(reply) != before,
    ensures
        before.to_persist(reply) == Some(before.after_reply(reply).config),
{
}

} // verus!
