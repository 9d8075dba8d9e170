//! One key, whatever the view.

use crate::ui::app::{App, Key, ViewState};
use crate::ui::calendar_keys::calendar_key_effect;
use crate::ui::list_keys::{holiday_key_effect, settings_key_effect, vacation_key_effect};
use vstd::prelude::*;

verus! {

/// What a key does, and whether the screen is left. A list view and the
/// settings view take the key as it is and never leave the screen. The
/// calendar view first forgets the outcome of the last backup.
pub open spec fn key_effect(before: App, after: App, key: Key, control: bool, quit: bool) -> bool {
    match before.view_state {
        ViewState::Vacations => vacation_key_effect(before, after, key) && !quit,
        ViewState::Holidays => holiday_key_effect(before, after, key) && !quit,
        ViewState::Settings => settings_key_effect(before, after, key) && !quit,
        ViewState::Calendar => calendar_key_effect(
            App { git_status: None, ..before },
            after,
            key,
            control,
            quit,
        ),
    }
}

impl App {
    /// Takes one key, with or without the control key held, and says
    /// whether the screen is to be left.
    pub fn handle_key(&mut self, key: Key, control: bool) -> (quit: bool)
        ensures
            key_effect(*old(self), *final(self), key, control, quit),
    {
        match self.view_state {
            ViewState::Vacations => {
                self.handle_vacation_key(key);
                false
            },
            ViewState::Holidays => {
                self.handle_holiday_key(key);
                false
            },
            ViewState::Settings => {
                self.handle_settings_key(key);
                false
            },
            ViewState::Calendar => {
                self.git_status = None;
                self.calendar_key(key, control)
            },
        }
    }
}

} // verus!
