//! The keys of the calendar view.

use crate::data::badge_entry::{is_filed, not_filed_under, BadgeEntry};
use crate::data::event::{is_on, is_other_event, sort_by_date, Event};
use crate::data::quarter::{is_first_quarter_holding, quarter_holds};
use crate::date::{date_key, in_date_range, Date};
use crate::text::{string_pop, string_push};
use crate::ui::app::{
    nothing, quarter_on_view, quarter_stats_current, rest_unchanged, year_stats_current, App, Key,
    Mode, Touched, ViewState,
};
use crate::ui::calendar_view::{add_months, months_added};
use vstd::prelude::*;

verus! {

/// The text without its last character; the empty text stays empty.
pub open spec fn without_last(text: Seq<char>) -> Seq<char> {
    if text.len() > 0 {
        text.drop_last()
    } else {
        text
    }
}

/// The selection moves by `delta` days, if there is such a date.
pub open spec fn selection_moved(before: App, after: App, delta: int) -> bool {
    &&& rest_unchanged(before, after, Touched { selected_date: true, ..nothing() })
    &&& after.selected_date@ == (if in_date_range(before.selected_date@ + delta) {
        before.selected_date@ + delta
    } else {
        before.selected_date@
    })
}

/// Whether `entry` is a new badge-in on `day` at `office`.
pub open spec fn is_fresh_badge(entry: BadgeEntry, day: Date, office: Seq<char>, flex: bool) -> bool {
    &&& entry.key@ == date_key(day@)
    &&& entry.date_time.date() == day
    &&& entry.date_time.seconds_of_day() == 0
    &&& entry.date_time.nanosecond() == 0
    &&& entry.office@ == office
    &&& entry.is_badged_in
    &&& entry.is_flex_credit == flex
}

/// The statistics are computed anew.
pub open spec fn stats_renewed(after: App) -> bool {
    quarter_stats_current(after) && year_stats_current(after)
}

/// With a quarter on view, the selected day is badged in if no record was
/// filed under it, and all records filed under it are taken out if there
/// were any; then the statistics are computed anew. Without a quarter on
/// view nothing happens.
pub open spec fn badge_toggled(before: App, after: App, flex: bool) -> bool {
    if quarter_on_view(before) is Some {
        let key = date_key(before.selected_date@);
        let office = if flex {
            before.settings.flex_credit@
        } else {
            before.settings.default_office@
        };
        &&& rest_unchanged(before, after, Touched { badge_data: true, stats: true, ..nothing() })
        &&& if is_filed(before.badge_data.data@, key) {
            after.badge_data.data@ == before.badge_data.data@.filter(not_filed_under(key))
        } else {
            &&& after.badge_data.data@.len() == before.badge_data.data@.len() + 1
            &&& after.badge_data.data@.drop_last() == before.badge_data.data@
            &&& is_fresh_badge(after.badge_data.data@.last(), before.selected_date, office, flex)
        }
        &&& stats_renewed(after)
    } else {
        after == before
    }
}

/// The badge-ins are put back as they were when what-if mode was entered,
/// and the statistics are computed anew.
pub open spec fn what_if_left(before: App, after: App) -> bool {
    &&& before.what_if_snapshot matches Some(saved)
    &&& rest_unchanged(
        before,
        after,
        Touched { badge_data: true, what_if_snapshot: true, stats: true, ..nothing() },
    )
    &&& after.badge_data == saved
    &&& after.what_if_snapshot is None
    &&& stats_renewed(after)
}

/// What-if mode is left if it was on, and entered, with a copy of the
/// badge-ins put aside, if it was off.
pub open spec fn what_if_toggled(before: App, after: App) -> bool {
    if before.what_if_snapshot is Some {
        what_if_left(before, after)
    } else {
        &&& rest_unchanged(before, after, Touched { what_if_snapshot: true, ..nothing() })
        &&& after.what_if_snapshot matches Some(saved)
        &&& saved.data@ == before.badge_data.data@
    }
}

/// The view moves `months` months on: to the first quarter that holds the
/// date that lies so many months after the place it had moved to, or to
/// no quarter; then the statistics are computed anew.
pub open spec fn quarter_shifted(before: App, after: App, months: int) -> bool {
    &&& rest_unchanged(
        before,
        after,
        Touched { nav_date: true, current_quarter: true, stats: true, ..nothing() },
    )
    &&& after.nav_date@ == months_added(before.nav_date@, months)
    &&& match after.current_quarter {
        Some(i) => is_first_quarter_holding(
            before.quarter_data.quarters@,
            after.nav_date@,
            i as int,
        ),
        None => forall|i: int|
            0 <= i < before.quarter_data.quarters@.len() ==> !quarter_holds(
                (#[trigger] before.quarter_data.quarters@[i])@,
                after.nav_date@,
            ),
    }
    &&& stats_renewed(after)
}

/// A mode other than the normal one is entered: with an empty text to
/// write into, or with the first event picked.
pub open spec fn mode_entered(before: App, after: App, mode: Mode) -> bool {
    &&& after.mode == mode
    &&& if mode == Mode::Delete {
        &&& rest_unchanged(before, after, Touched { mode: true, cursor_index: true, ..nothing() })
        &&& after.cursor_index == 0
    } else {
        &&& rest_unchanged(before, after, Touched { mode: true, input_buffer: true, ..nothing() })
        &&& after.input_buffer@.len() == 0
    }
}

/// A list view or the settings view is opened, on its first line, with no
/// form open and an empty text; a list view also forgets the fields and
/// the line of an earlier form.
pub open spec fn view_opened(before: App, after: App, view: ViewState) -> bool {
    &&& after.view_state == view
    &&& after.list_cursor == 0
    &&& after.list_add_stage == 0
    &&& after.input_buffer@.len() == 0
    &&& if view == ViewState::Settings {
        rest_unchanged(
            before,
            after,
            Touched {
                view_state: true,
                list_cursor: true,
                list_add_stage: true,
                input_buffer: true,
                ..nothing()
            },
        )
    } else {
        &&& rest_unchanged(
            before,
            after,
            Touched {
                view_state: true,
                list_cursor: true,
                list_add_stage: true,
                input_buffer: true,
                list_field_bufs: true,
                list_edit_index: true,
                ..nothing()
            },
        )
        &&& after.list_field_bufs@.len() == 0
        &&& after.list_edit_index is None
    }
}

/// Before the screen is left, what-if mode is left if it was on.
pub open spec fn left_for_good(before: App, after: App) -> bool {
    if before.what_if_snapshot is Some {
        what_if_left(before, after)
    } else {
        after == before
    }
}

/// A backup is asked for.
pub open spec fn backup_asked(before: App, after: App) -> bool {
    &&& rest_unchanged(before, after, Touched { backup_requested: true, ..nothing() })
    &&& after.backup_requested
}

/// What a key does in normal mode, and whether the screen is left.
pub open spec fn normal_key_effect(before: App, after: App, key: Key, control: bool, quit: bool)
    -> bool {
    match key {
        Key::Left => selection_moved(before, after, -1) && !quit,
        Key::Right => selection_moved(before, after, 1) && !quit,
        Key::Up => selection_moved(before, after, -7) && !quit,
        Key::Down => selection_moved(before, after, 7) && !quit,
        Key::Char(c) => if c == ' ' {
            badge_toggled(before, after, false) && !quit
        } else if c == 'f' {
            badge_toggled(before, after, true) && !quit
        } else if c == 'g' {
            backup_asked(before, after) && !quit
        } else if c == 'w' {
            what_if_toggled(before, after) && !quit
        } else if c == 'n' {
            quarter_shifted(before, after, 3) && !quit
        } else if c == 'p' {
            quarter_shifted(before, after, -3) && !quit
        } else if c == 'a' {
            mode_entered(before, after, Mode::Add) && !quit
        } else if c == 'd' {
            mode_entered(before, after, Mode::Delete) && !quit
        } else if c == 's' {
            mode_entered(before, after, Mode::Search) && !quit
        } else if c == 'v' {
            view_opened(before, after, ViewState::Vacations) && !quit
        } else if c == 'h' {
            view_opened(before, after, ViewState::Holidays) && !quit
        } else if c == 'o' {
            view_opened(before, after, ViewState::Settings) && !quit
        } else if c == 'q' || (c == 'c' && control) {
            left_for_good(before, after) && quit
        } else {
            after == before && !quit
        },
        _ => after == before && !quit,
    }
}

/// What a key does in add mode: Enter files the text, if there is any, as
/// an event on the selected day and goes back to normal mode; Esc goes
/// back without; Backspace and the characters edit the text.
pub open spec fn add_key_effect(before: App, after: App, key: Key) -> bool {
    match key {
        Key::Enter => {
            &&& after.mode == Mode::Normal
            &&& after.input_buffer@.len() == 0
            &&& if before.input_buffer@.len() > 0 {
                &&& rest_unchanged(
                    before,
                    after,
                    Touched { event_data: true, input_buffer: true, mode: true, ..nothing() },
                )
                &&& exists|event: Event|
                    event.date@ == date_key(before.selected_date@) && event.description@
                        == before.input_buffer@ && after.event_data.events@ == #[trigger] sort_by_date(
                        before.event_data.events@.push(event),
                    )
            } else {
                rest_unchanged(
                    before,
                    after,
                    Touched { input_buffer: true, mode: true, ..nothing() },
                )
            }
        },
        Key::Esc => {
            &&& rest_unchanged(before, after, Touched { input_buffer: true, mode: true, ..nothing() })
            &&& after.mode == Mode::Normal
            &&& after.input_buffer@.len() == 0
        },
        Key::Backspace => {
            &&& rest_unchanged(before, after, Touched { input_buffer: true, ..nothing() })
            &&& after.input_buffer@ == without_last(before.input_buffer@)
        },
        Key::Char(c) => {
            &&& rest_unchanged(before, after, Touched { input_buffer: true, ..nothing() })
            &&& after.input_buffer@ == before.input_buffer@.push(c)
        },
        _ => after == before,
    }
}

/// The events of the selected day, in their order.
pub open spec fn events_of_selected_day(app: App) -> Seq<Event> {
    app.event_data.events@.filter(is_on(date_key(app.selected_date@)))
}

/// What a key does in delete mode: Up and Down pick one of the events of
/// the selected day; Enter takes out the picked event, and every event of
/// that day with the same description, and goes back to normal mode; Esc
/// goes back without.
pub open spec fn delete_key_effect(before: App, after: App, key: Key) -> bool {
    let on_day = events_of_selected_day(before);
    match key {
        Key::Enter => {
            &&& after.mode == Mode::Normal
            &&& if before.cursor_index < on_day.len() {
                &&& rest_unchanged(
                    before,
                    after,
                    Touched { event_data: true, cursor_index: true, mode: true, ..nothing() },
                )
                &&& after.event_data.events@ == before.event_data.events@.filter(
                    is_other_event(
                        date_key(before.selected_date@),
                        on_day[before.cursor_index as int].description@,
                    ),
                )
                &&& after.cursor_index == (if before.cursor_index > 0 && before.cursor_index
                    >= on_day.len() - 1 {
                    before.cursor_index - 1
                } else {
                    before.cursor_index as int
                })
            } else {
                rest_unchanged(before, after, Touched { mode: true, ..nothing() })
            }
        },
        Key::Esc => {
            &&& rest_unchanged(before, after, Touched { mode: true, ..nothing() })
            &&& after.mode == Mode::Normal
        },
        Key::Up => {
            &&& rest_unchanged(before, after, Touched { cursor_index: true, ..nothing() })
            &&& after.cursor_index == (if before.cursor_index > 0 {
                before.cursor_index - 1
            } else {
                before.cursor_index as int
            })
        },
        Key::Down => {
            &&& rest_unchanged(before, after, Touched { cursor_index: true, ..nothing() })
            &&& after.cursor_index == (if before.cursor_index + 1 < on_day.len() {
                before.cursor_index + 1
            } else {
                before.cursor_index as int
            })
        },
        _ => after == before,
    }
}

/// What a key does in search mode: Enter and Esc go back to normal mode
/// and drop the text; Backspace and the characters edit it.
pub open spec fn search_key_effect(before: App, after: App, key: Key) -> bool {
    match key {
        Key::Enter | Key::Esc => {
            &&& rest_unchanged(before, after, Touched { input_buffer: true, mode: true, ..nothing() })
            &&& after.mode == Mode::Normal
            &&& after.input_buffer@.len() == 0
        },
        Key::Backspace => {
            &&& rest_unchanged(before, after, Touched { input_buffer: true, ..nothing() })
            &&& after.input_buffer@ == without_last(before.input_buffer@)
        },
        Key::Char(c) => {
            &&& rest_unchanged(before, after, Touched { input_buffer: true, ..nothing() })
            &&& after.input_buffer@ == before.input_buffer@.push(c)
        },
        _ => after == before,
    }
}

/// What a key does in the calendar view, by the mode, and whether the
/// screen is left. Only a key of normal mode leaves it.
pub open spec fn calendar_key_effect(before: App, after: App, key: Key, control: bool, quit: bool)
    -> bool {
    match before.mode {
        Mode::Normal => normal_key_effect(before, after, key, control, quit),
        Mode::Add => add_key_effect(before, after, key) && !quit,
        Mode::Delete => delete_key_effect(before, after, key) && !quit,
        Mode::Search => search_key_effect(before, after, key) && !quit,
    }
}

impl App {
    fn move_selection(&mut self, delta: i64)
        ensures
            selection_moved(*old(self), *final(self), delta as int),
    {
        match self.selected_date.checked_add_days(delta) {
            Some(date) => {
                self.selected_date = date;
            },
            None => {},
        }
    }

    fn toggle_badge(&mut self, flex: bool)
        ensures
            badge_toggled(*old(self), *final(self), flex),
    {
        let on_view = match self.current_quarter {
            Some(i) => i < self.quarter_data.quarters.len(),
            None => false,
        };
        if on_view {
            let key = self.selected_date.key();
            if self.badge_data.has(key.as_str()) {
                self.badge_data.remove(key.as_str());
            } else {
                let entry = if flex {
                    BadgeEntry::new(self.selected_date, self.settings.flex_credit.as_str(), true)
                } else {
                    BadgeEntry::new(
                        self.selected_date,
                        self.settings.default_office.as_str(),
                        false,
                    )
                };
                let ghost before = self.badge_data.data@;
                self.badge_data.add(entry);
                assert(self.badge_data.data@.drop_last() =~= before);
            }
            self.update_stats();
        }
    }

    fn leave_what_if(&mut self)
        ensures
            left_for_good(*old(self), *final(self)),
    {
        if self.what_if_snapshot.is_some() {
            let mut saved: Option<crate::data::badge_entry::BadgeEntryData> = None;
            std::mem::swap(&mut saved, &mut self.what_if_snapshot);
            match saved {
                Some(badges) => {
                    self.badge_data = badges;
                    self.update_stats();
                },
                None => {},
            }
        }
    }

    fn toggle_what_if(&mut self)
        ensures
            what_if_toggled(*old(self), *final(self)),
    {
        if self.what_if_snapshot.is_some() {
            self.leave_what_if();
        } else {
            self.what_if_snapshot = Some(self.badge_data.duplicate());
        }
    }

    fn shift_quarter(&mut self, months: i32)
        ensures
            quarter_shifted(*old(self), *final(self), months as int),
    {
        let target = add_months(self.nav_date, months);
        self.nav_date = target;
        self.current_quarter = self.quarter_data.position_by_date(target);
        self.update_stats();
    }

    fn enter_mode(&mut self, mode: Mode)
        ensures
            mode_entered(*old(self), *final(self), mode),
    {
        match mode {
            Mode::Delete => {
                self.cursor_index = 0;
            },
            _ => {
                self.input_buffer = String::new();
            },
        }
        self.mode = mode;
    }

    fn open_view(&mut self, view: ViewState)
        ensures
            view_opened(*old(self), *final(self), view),
    {
        self.view_state = view;
        self.list_cursor = 0;
        self.list_add_stage = 0;
        match view {
            ViewState::Settings => {},
            _ => {
                self.list_field_bufs = Vec::new();
                self.list_edit_index = None;
            },
        }
        self.input_buffer = String::new();
    }

    fn normal_key(&mut self, key: Key, control: bool) -> (quit: bool)
        ensures
            normal_key_effect(*old(self), *final(self), key, control, quit),
    {
        match key {
            Key::Left => {
                self.move_selection(-1);
                false
            },
            Key::Right => {
                self.move_selection(1);
                false
            },
            Key::Up => {
                self.move_selection(-7);
                false
            },
            Key::Down => {
                self.move_selection(7);
                false
            },
            Key::Char(c) => {
                if c == ' ' {
                    self.toggle_badge(false);
                    false
                } else if c == 'f' {
                    self.toggle_badge(true);
                    false
                } else if c == 'g' {
                    self.backup_requested = true;
                    false
                } else if c == 'w' {
                    self.toggle_what_if();
                    false
                } else if c == 'n' {
                    self.shift_quarter(3);
                    false
                } else if c == 'p' {
                    self.shift_quarter(-3);
                    false
                } else if c == 'a' {
                    self.enter_mode(Mode::Add);
                    false
                } else if c == 'd' {
                    self.enter_mode(Mode::Delete);
                    false
                } else if c == 's' {
                    self.enter_mode(Mode::Search);
                    false
                } else if c == 'v' {
                    self.open_view(ViewState::Vacations);
                    false
                } else if c == 'h' {
                    self.open_view(ViewState::Holidays);
                    false
                } else if c == 'o' {
                    self.open_view(ViewState::Settings);
                    false
                } else if c == 'q' || (c == 'c' && control) {
                    self.leave_what_if();
                    true
                } else {
                    false
                }
            },
            _ => false,
        }
    }

    fn add_key(&mut self, key: Key)
        ensures
            add_key_effect(*old(self), *final(self), key),
    {
        match key {
            Key::Enter => {
                if self.input_buffer.as_str().unicode_len() > 0 {
                    let event = Event {
                        date: self.selected_date.key(),
                        description: self.input_buffer.clone(),
                    };
                    let ghost before = self.event_data.events@;
                    self.event_data.add(event);
                    assert(self.event_data.events@ == sort_by_date(before.push(event)));
                }
                self.input_buffer = String::new();
                self.mode = Mode::Normal;
            },
            Key::Esc => {
                self.input_buffer = String::new();
                self.mode = Mode::Normal;
            },
            Key::Backspace => {
                string_pop(&mut self.input_buffer);
            },
            Key::Char(c) => {
                string_push(&mut self.input_buffer, c);
            },
            _ => {},
        }
    }

    fn delete_key(&mut self, key: Key)
        ensures
            delete_key_effect(*old(self), *final(self), key),
    {
        let date = self.selected_date.key();
        match key {
            Key::Enter => {
                let on_day = self.event_data.events_on(date.as_str());
                let count = on_day.len();
                assert(count == events_of_selected_day(*old(self)).len()) by {
                    assert(crate::data::event::referents(on_day@).len() == on_day@.len());
                }
                if self.cursor_index < count {
                    let description = on_day[self.cursor_index].description.clone();
                    assert(description@ == events_of_selected_day(*old(self))[self.cursor_index as int].description@) by {
                        assert(crate::data::event::referents(on_day@)[self.cursor_index as int]
                            == *on_day@[self.cursor_index as int]);
                    }
                    self.event_data.remove(date.as_str(), description.as_str());
                    if self.cursor_index > 0 && self.cursor_index >= count - 1 {
                        self.cursor_index = self.cursor_index - 1;
                    }
                }
                self.mode = Mode::Normal;
            },
            Key::Esc => {
                self.mode = Mode::Normal;
            },
            Key::Up => {
                if self.cursor_index > 0 {
                    self.cursor_index = self.cursor_index - 1;
                }
            },
            Key::Down => {
                let on_day = self.event_data.events_on(date.as_str());
                let count = on_day.len();
                assert(count == events_of_selected_day(*old(self)).len()) by {
                    assert(crate::data::event::referents(on_day@).len() == on_day@.len());
                }
                if count > 0 && self.cursor_index < count - 1 {
                    self.cursor_index = self.cursor_index + 1;
                }
            },
            _ => {},
        }
    }

    fn search_key(&mut self, key: Key)
        ensures
            search_key_effect(*old(self), *final(self), key),
    {
        match key {
            Key::Enter | Key::Esc => {
                self.mode = Mode::Normal;
                self.input_buffer = String::new();
            },
            Key::Backspace => {
                string_pop(&mut self.input_buffer);
            },
            Key::Char(c) => {
                string_push(&mut self.input_buffer, c);
            },
            _ => {},
        }
    }

    /// One key in the calendar view. Says whether the screen is left.
    pub fn calendar_key(&mut self, key: Key, control: bool) -> (quit: bool)
        ensures
            calendar_key_effect(*old(self), *final(self), key, control, quit),
    {
        match self.mode {
            Mode::Normal => self.normal_key(key, control),
            Mode::Add => {
                self.add_key(key);
                false
            },
            Mode::Delete => {
                self.delete_key(key);
                false
            },
            Mode::Search => {
                self.search_key(key);
                false
            },
        }
    }
}

} // verus!
