//! The keys of the list views (vacations, holidays) and of the settings
//! view.
//!
//! A list view is browsed (stage 0) or has a form open (stage 1 and up),
//! one field at a time. The vacation form asks for destination, start
//! date, end date and approval; the holiday form for date and name. A date
//! field is taken only if it can be read as a date.

use crate::data::holiday::Holiday;
use crate::data::vacation::Vacation;
use crate::date::{parsed_date, Date};
use crate::text::{lowercase_of, str_to_lowercase, string_pop, string_push};
use crate::ui::app::{nothing, rest_unchanged, App, Key, Touched, ViewState};
use crate::ui::calendar_keys::without_last;
use vstd::prelude::*;

verus! {

/// What the text field shows after a date that cannot be read.
pub open spec fn invalid_date_notice() -> Seq<char> {
    "Invalid date — use YYYY-MM-DD"@
}

/// Field `i` of a form whose entered fields are `fields`, with `entry`
/// coming after them; empty if there is no such field.
pub open spec fn field_of(fields: Seq<String>, entry: Seq<char>, i: int) -> Seq<char> {
    if 0 <= i < fields.len() {
        fields[i]@
    } else if i == fields.len() {
        entry
    } else {
        Seq::empty()
    }
}

/// Whether a text says yes: in lower case, it starts with a "y".
pub open spec fn says_yes(text: Seq<char>) -> bool {
    lowercase_of(text).len() > 0 && lowercase_of(text)[0] == 'y'
}

/// The picked line moves up by one, if it is not the first.
pub open spec fn line_up(before: App, after: App) -> bool {
    &&& rest_unchanged(before, after, Touched { list_cursor: true, ..nothing() })
    &&& after.list_cursor == (if before.list_cursor > 0 {
        before.list_cursor - 1
    } else {
        before.list_cursor as int
    })
}

/// The picked line moves down by one, if it is not the last of `lines`.
pub open spec fn line_down(before: App, after: App, lines: int) -> bool {
    &&& rest_unchanged(before, after, Touched { list_cursor: true, ..nothing() })
    &&& after.list_cursor == (if before.list_cursor + 1 < lines {
        before.list_cursor + 1
    } else {
        before.list_cursor as int
    })
}

/// The form is opened at its first field: for a new line with an empty
/// text, or for line `line` with the text `text`.
pub open spec fn form_opened(before: App, after: App, line: Option<usize>, text: Seq<char>) -> bool {
    &&& rest_unchanged(
        before,
        after,
        Touched {
            list_edit_index: true,
            list_field_bufs: true,
            input_buffer: true,
            list_add_stage: true,
            ..nothing()
        },
    )
    &&& after.list_edit_index == line
    &&& after.list_field_bufs@.len() == 0
    &&& after.input_buffer@ == text
    &&& after.list_add_stage == 1
}

/// The form is closed and forgotten.
pub open spec fn form_closed(after: App) -> bool {
    &&& after.list_add_stage == 0
    &&& after.list_edit_index is None
    &&& after.list_field_bufs@.len() == 0
    &&& after.input_buffer@.len() == 0
}

/// The view goes back to the calendar.
pub open spec fn back_to_calendar(before: App, after: App) -> bool {
    &&& rest_unchanged(before, after, Touched { view_state: true, ..nothing() })
    &&& after.view_state == ViewState::Calendar
}

/// The picked line after line `before.list_cursor` of `lines` lines was
/// taken out: the line before it, if it was the last and not the first.
pub open spec fn cursor_after_removal(cursor: usize, lines: int) -> int {
    if cursor > 0 && cursor >= lines - 1 {
        cursor - 1
    } else {
        cursor as int
    }
}

/// The text field is edited: a character is appended, or the last one is
/// taken off.
pub open spec fn text_edited(before: App, after: App, key: Key) -> bool {
    &&& rest_unchanged(before, after, Touched { input_buffer: true, ..nothing() })
    &&& after.input_buffer@ == (match key {
        Key::Char(c) => before.input_buffer@.push(c),
        _ => without_last(before.input_buffer@),
    })
}

/// The text is not taken as a date: the text field shows the notice and
/// nothing else changes.
pub open spec fn date_refused(before: App, after: App) -> bool {
    &&& rest_unchanged(before, after, Touched { input_buffer: true, ..nothing() })
    &&& after.input_buffer@ == invalid_date_notice()
}

/// The stage after stage `stage`.
pub open spec fn next_stage(stage: u8) -> int {
    if stage < 255 {
        stage + 1
    } else {
        255
    }
}

/// The text is taken as a field and the form moves on to the next field,
/// which shows `text`.
pub open spec fn field_taken(before: App, after: App, text: Seq<char>) -> bool {
    &&& rest_unchanged(
        before,
        after,
        Touched { list_field_bufs: true, input_buffer: true, list_add_stage: true, ..nothing() },
    )
    &&& after.list_field_bufs@.len() == before.list_field_bufs@.len() + 1
    &&& after.list_field_bufs@.drop_last() == before.list_field_bufs@
    &&& after.list_field_bufs@.last()@ == before.input_buffer@
    &&& after.input_buffer@ == text
    &&& after.list_add_stage == next_stage(before.list_add_stage)
}

/// Whether `v` is the vacation of a form with the entered fields `fields`
/// and the last field `entry`.
pub open spec fn is_vacation_of(v: Vacation, fields: Seq<String>, entry: Seq<char>) -> bool {
    &&& v.destination@ == field_of(fields, entry, 0)
    &&& v.start_date@ == field_of(fields, entry, 1)
    &&& v.end_date@ == field_of(fields, entry, 2)
    &&& v.approved == says_yes(field_of(fields, entry, 3))
}

/// What the next field of the vacation form shows when line `line` is
/// edited: the start date before stage 2, the end date before stage 3,
/// "y" or "n" before stage 4.
pub open spec fn vacation_field_text(vacations: Seq<Vacation>, line: Option<usize>, stage: int)
    -> Seq<char> {
    match line {
        Some(i) => if i < vacations.len() {
            if stage == 2 {
                vacations[i as int].start_date@
            } else if stage == 3 {
                vacations[i as int].end_date@
            } else if stage == 4 {
                if vacations[i as int].approved {
                    "y"@
                } else {
                    "n"@
                }
            } else {
                Seq::empty()
            }
        } else {
            Seq::empty()
        },
        None => Seq::empty(),
    }
}

/// What a key does in the vacation view.
pub open spec fn vacation_key_effect(before: App, after: App, key: Key) -> bool {
    let vacations = before.vacation_data.vacations@;
    let cursor = before.list_cursor;
    let picked = cursor < vacations.len();
    if before.list_add_stage == 0 {
        match key {
            Key::Up => line_up(before, after),
            Key::Down => line_down(before, after, vacations.len() as int),
            Key::Enter => if picked {
                form_opened(before, after, Some(cursor), vacations[cursor as int].destination@)
            } else {
                after == before
            },
            Key::Delete => vacation_removed(before, after),
            Key::Esc => back_to_calendar(before, after),
            Key::Char(c) => if c == 'a' {
                form_opened(before, after, None, Seq::empty())
            } else if c == 'e' {
                if picked {
                    form_opened(
                        before,
                        after,
                        Some(cursor),
                        vacations[cursor as int].destination@,
                    )
                } else {
                    after == before
                }
            } else if c == 'x' {
                vacation_removed(before, after)
            } else if c == 'q' {
                back_to_calendar(before, after)
            } else {
                after == before
            },
            _ => after == before,
        }
    } else {
        match key {
            Key::Char(_) | Key::Backspace => text_edited(before, after, key),
            Key::Enter => if (before.list_add_stage == 2 || before.list_add_stage == 3)
                && parsed_date(before.input_buffer@) is None {
                date_refused(before, after)
            } else if before.list_add_stage == 4 {
                vacation_filed(before, after)
            } else {
                field_taken(
                    before,
                    after,
                    vacation_field_text(
                        vacations,
                        before.list_edit_index,
                        next_stage(before.list_add_stage),
                    ),
                )
            },
            Key::Esc => {
                &&& rest_unchanged(
                    before,
                    after,
                    Touched {
                        list_add_stage: true,
                        list_edit_index: true,
                        input_buffer: true,
                        list_field_bufs: true,
                        ..nothing()
                    },
                )
                &&& form_closed(after)
            },
            _ => after == before,
        }
    }
}

/// The picked vacation is taken out, if one is picked.
pub open spec fn vacation_removed(before: App, after: App) -> bool {
    let vacations = before.vacation_data.vacations@;
    if before.list_cursor < vacations.len() {
        &&& rest_unchanged(
            before,
            after,
            Touched { vacation_data: true, list_cursor: true, ..nothing() },
        )
        &&& after.vacation_data.vacations@ == vacations.remove(before.list_cursor as int)
        &&& after.list_cursor == cursor_after_removal(before.list_cursor, vacations.len() as int)
    } else {
        after == before
    }
}

/// The vacation of the form is filed: in place of the line that the form
/// edits, if that line is there, or as a new line; and the form is
/// closed. A form that edits a line that is not there files nothing.
pub open spec fn vacation_filed(before: App, after: App) -> bool {
    let vacations = before.vacation_data.vacations@;
    &&& rest_unchanged(
        before,
        after,
        Touched {
            vacation_data: true,
            list_add_stage: true,
            list_edit_index: true,
            input_buffer: true,
            list_field_bufs: true,
            ..nothing()
        },
    )
    &&& form_closed(after)
    &&& match before.list_edit_index {
        Some(line) => if line < vacations.len() {
            exists|v: Vacation|
                is_vacation_of(v, before.list_field_bufs@, before.input_buffer@)
                    && after.vacation_data.vacations@ == #[trigger] vacations.update(
                    line as int,
                    v,
                )
        } else {
            after.vacation_data.vacations@ == vacations
        },
        None => exists|v: Vacation|
            is_vacation_of(v, before.list_field_bufs@, before.input_buffer@)
                && after.vacation_data.vacations@ == #[trigger] vacations.push(v),
    }
}

/// Whether `h` is the holiday of a form with the entered fields `fields`
/// and the last field `entry`: the date first, the name second.
pub open spec fn is_holiday_of(h: Holiday, fields: Seq<String>, entry: Seq<char>) -> bool {
    &&& h.date@ == field_of(fields, entry, 0)
    &&& h.name@ == field_of(fields, entry, 1)
}

/// What the next field of the holiday form shows when line `line` is
/// edited: the name.
pub open spec fn holiday_field_text(holidays: Seq<Holiday>, line: Option<usize>) -> Seq<char> {
    match line {
        Some(i) => if i < holidays.len() {
            holidays[i as int].name@
        } else {
            Seq::empty()
        },
        None => Seq::empty(),
    }
}

/// The picked holiday is taken out, if one is picked.
pub open spec fn holiday_removed(before: App, after: App) -> bool {
    let holidays = before.holiday_data.holidays@;
    if before.list_cursor < holidays.len() {
        &&& rest_unchanged(
            before,
            after,
            Touched { holiday_data: true, list_cursor: true, ..nothing() },
        )
        &&& after.holiday_data.holidays@ == holidays.remove(before.list_cursor as int)
        &&& after.list_cursor == cursor_after_removal(before.list_cursor, holidays.len() as int)
    } else {
        after == before
    }
}

/// The holiday of the form is filed: in place of the line that the form
/// edits, if that line is there, or as a new line; and the form is
/// closed. A form that edits a line that is not there files nothing.
pub open spec fn holiday_filed(before: App, after: App) -> bool {
    let holidays = before.holiday_data.holidays@;
    &&& rest_unchanged(
        before,
        after,
        Touched {
            holiday_data: true,
            list_add_stage: true,
            list_edit_index: true,
            input_buffer: true,
            list_field_bufs: true,
            ..nothing()
        },
    )
    &&& form_closed(after)
    &&& match before.list_edit_index {
        Some(line) => if line < holidays.len() {
            exists|h: Holiday|
                is_holiday_of(h, before.list_field_bufs@, before.input_buffer@)
                    && after.holiday_data.holidays@ == #[trigger] holidays.update(line as int, h)
        } else {
            after.holiday_data.holidays@ == holidays
        },
        None => exists|h: Holiday|
            is_holiday_of(h, before.list_field_bufs@, before.input_buffer@)
                && after.holiday_data.holidays@ == #[trigger] holidays.push(h),
    }
}

/// What a key does in the holiday view.
pub open spec fn holiday_key_effect(before: App, after: App, key: Key) -> bool {
    let holidays = before.holiday_data.holidays@;
    let cursor = before.list_cursor;
    let picked = cursor < holidays.len();
    if before.list_add_stage == 0 {
        match key {
            Key::Up => line_up(before, after),
            Key::Down => line_down(before, after, holidays.len() as int),
            Key::Enter => if picked {
                form_opened(before, after, Some(cursor), holidays[cursor as int].date@)
            } else {
                after == before
            },
            Key::Delete => holiday_removed(before, after),
            Key::Esc => back_to_calendar(before, after),
            Key::Char(c) => if c == 'a' {
                form_opened(before, after, None, Seq::empty())
            } else if c == 'e' {
                if picked {
                    form_opened(before, after, Some(cursor), holidays[cursor as int].date@)
                } else {
                    after == before
                }
            } else if c == 'x' {
                holiday_removed(before, after)
            } else if c == 'q' {
                back_to_calendar(before, after)
            } else {
                after == before
            },
            _ => after == before,
        }
    } else {
        match key {
            Key::Char(_) | Key::Backspace => text_edited(before, after, key),
            Key::Enter => if before.list_add_stage == 1 && parsed_date(before.input_buffer@)
                is None {
                date_refused(before, after)
            } else if before.list_add_stage == 2 {
                holiday_filed(before, after)
            } else {
                field_taken(before, after, holiday_field_text(holidays, before.list_edit_index))
            },
            Key::Esc => {
                &&& rest_unchanged(
                    before,
                    after,
                    Touched {
                        list_add_stage: true,
                        list_edit_index: true,
                        input_buffer: true,
                        list_field_bufs: true,
                        ..nothing()
                    },
                )
                &&& form_closed(after)
            },
            _ => after == before,
        }
    }
}

/// The setting on the picked line: the default office on the first line,
/// the flex credit label on any other.
pub open spec fn picked_setting(app: App) -> Seq<char> {
    if app.list_cursor == 0 {
        app.settings.default_office@
    } else {
        app.settings.flex_credit@
    }
}

/// What a key does in the settings view.
pub open spec fn settings_key_effect(before: App, after: App, key: Key) -> bool {
    if before.list_add_stage == 0 {
        match key {
            Key::Up => line_up(before, after),
            Key::Down => line_down(before, after, 2),
            Key::Enter => setting_opened(before, after),
            Key::Esc => back_to_calendar(before, after),
            Key::Char(c) => if c == 'e' {
                setting_opened(before, after)
            } else if c == 'q' {
                back_to_calendar(before, after)
            } else {
                after == before
            },
            _ => after == before,
        }
    } else {
        match key {
            Key::Char(_) | Key::Backspace => text_edited(before, after, key),
            Key::Enter => {
                &&& rest_unchanged(
                    before,
                    after,
                    Touched {
                        settings: true,
                        input_buffer: true,
                        list_add_stage: true,
                        ..nothing()
                    },
                )
                &&& after.input_buffer@.len() == 0
                &&& after.list_add_stage == 0
                &&& if before.list_cursor == 0 {
                    after.settings.default_office@ == before.input_buffer@
                        && after.settings.flex_credit == before.settings.flex_credit
                } else {
                    after.settings.flex_credit@ == before.input_buffer@
                        && after.settings.default_office == before.settings.default_office
                }
            },
            Key::Esc => {
                &&& rest_unchanged(
                    before,
                    after,
                    Touched { input_buffer: true, list_add_stage: true, ..nothing() },
                )
                &&& after.input_buffer@.len() == 0
                &&& after.list_add_stage == 0
            },
            _ => after == before,
        }
    }
}

/// The picked setting is opened for editing.
pub open spec fn setting_opened(before: App, after: App) -> bool {
    &&& rest_unchanged(
        before,
        after,
        Touched { input_buffer: true, list_add_stage: true, ..nothing() },
    )
    &&& after.input_buffer@ == picked_setting(before)
    &&& after.list_add_stage == 1
}

/// Whether a text says yes.
fn text_says_yes(text: &str) -> (r: bool)
    ensures
        r == says_yes(text@),
{
    let lower = str_to_lowercase(text);
    lower.as_str().unicode_len() > 0 && lower.as_str().get_char(0) == 'y'
}

impl App {
    fn form_field(&self, i: usize) -> (r: &str)
        ensures
            r@ == field_of(self.list_field_bufs@, Seq::empty(), i as int),
    {
        if i < self.list_field_bufs.len() {
            self.list_field_bufs[i].as_str()
        } else {
            proof {
                reveal_strlit("");
                assert(""@ =~= Seq::<char>::empty());
            }
            ""
        }
    }

    fn move_line_up(&mut self)
        ensures
            line_up(*old(self), *final(self)),
    {
        if self.list_cursor > 0 {
            self.list_cursor = self.list_cursor - 1;
        }
    }

    fn move_line_down(&mut self, lines: usize)
        ensures
            line_down(*old(self), *final(self), lines as int),
    {
        if self.list_cursor < lines && self.list_cursor + 1 < lines {
            self.list_cursor = self.list_cursor + 1;
        }
    }

    fn open_form(&mut self, line: Option<usize>, text: String)
        ensures
            form_opened(*old(self), *final(self), line, text@),
    {
        self.list_edit_index = line;
        self.list_field_bufs = Vec::new();
        self.input_buffer = text;
        self.list_add_stage = 1;
    }

    fn close_form(&mut self)
        ensures
            rest_unchanged(
                *old(self),
                *final(self),
                Touched {
                    list_add_stage: true,
                    list_edit_index: true,
                    input_buffer: true,
                    list_field_bufs: true,
                    ..nothing()
                },
            ),
            form_closed(*final(self)),
    {
        self.list_add_stage = 0;
        self.list_edit_index = None;
        self.list_field_bufs = Vec::new();
        self.input_buffer = String::new();
    }

    fn edit_text(&mut self, key: Key)
        requires
            key is Char || key is Backspace,
        ensures
            text_edited(*old(self), *final(self), key),
    {
        match key {
            Key::Char(c) => {
                string_push(&mut self.input_buffer, c);
            },
            _ => {
                string_pop(&mut self.input_buffer);
            },
        }
    }

    fn take_field(&mut self, text: String)
        ensures
            field_taken(*old(self), *final(self), text@),
    {
        let entry = self.input_buffer.clone();
        let ghost before = self.list_field_bufs@;
        self.list_field_bufs.push(entry);
        assert(self.list_field_bufs@.drop_last() =~= before);
        self.input_buffer = text;
        if self.list_add_stage < 255 {
            self.list_add_stage = self.list_add_stage + 1;
        }
    }

    fn remove_vacation(&mut self)
        ensures
            vacation_removed(*old(self), *final(self)),
    {
        let lines = self.vacation_data.vacations.len();
        if self.list_cursor < lines {
            self.vacation_data.vacations.remove(self.list_cursor);
            if self.list_cursor > 0 && self.list_cursor >= lines - 1 {
                self.list_cursor = self.list_cursor - 1;
            }
        }
    }

    fn file_vacation(&mut self)
        ensures
            vacation_filed(*old(self), *final(self)),
    {
        let entry = self.input_buffer.clone();
        let ghost fields = self.list_field_bufs@;
        self.list_field_bufs.push(entry);
        assert(forall|i: int|
            0 <= i < 4 ==> #[trigger] field_of(self.list_field_bufs@, Seq::empty(), i) == field_of(
                fields,
                old(self).input_buffer@,
                i,
            ));
        let approved = text_says_yes(self.form_field(3));
        let vacation = Vacation::new(
            self.form_field(0),
            self.form_field(1),
            self.form_field(2),
            approved,
        );
        assert(is_vacation_of(vacation, fields, old(self).input_buffer@));
        match self.list_edit_index {
            Some(line) => {
                if line < self.vacation_data.vacations.len() {
                    self.vacation_data.vacations.set(line, vacation);
                }
            },
            None => {
                self.vacation_data.add(vacation);
            },
        }
        self.close_form();
    }

    fn next_vacation_field(&self) -> (r: String)
        ensures
            r@ == vacation_field_text(
                self.vacation_data.vacations@,
                self.list_edit_index,
                next_stage(self.list_add_stage),
            ),
    {
        let stage: u8 = if self.list_add_stage < 255 {
            self.list_add_stage + 1
        } else {
            255
        };
        match self.list_edit_index {
            Some(line) => {
                if line < self.vacation_data.vacations.len() {
                    let vacation = &self.vacation_data.vacations[line];
                    if stage == 2 {
                        vacation.start_date.clone()
                    } else if stage == 3 {
                        vacation.end_date.clone()
                    } else if stage == 4 {
                        if vacation.approved {
                            "y".to_owned()
                        } else {
                            "n".to_owned()
                        }
                    } else {
                        String::new()
                    }
                } else {
                    String::new()
                }
            },
            None => String::new(),
        }
    }

    /// One key in the vacation view.
    pub fn handle_vacation_key(&mut self, key: Key)
        ensures
            vacation_key_effect(*old(self), *final(self), key),
    {
        if self.list_add_stage == 0 {
            let lines = self.vacation_data.vacations.len();
            match key {
                Key::Up => self.move_line_up(),
                Key::Down => self.move_line_down(lines),
                Key::Enter => self.edit_picked_vacation(),
                Key::Delete => self.remove_vacation(),
                Key::Esc => {
                    self.view_state = ViewState::Calendar;
                },
                Key::Char(c) => {
                    if c == 'a' {
                        self.open_form(None, String::new());
                    } else if c == 'e' {
                        self.edit_picked_vacation();
                    } else if c == 'x' {
                        self.remove_vacation();
                    } else if c == 'q' {
                        self.view_state = ViewState::Calendar;
                    }
                },
                _ => {},
            }
        } else {
            match key {
                Key::Char(_) | Key::Backspace => self.edit_text(key),
                Key::Enter => {
                    if (self.list_add_stage == 2 || self.list_add_stage == 3) && Date::parse(
                        self.input_buffer.as_str(),
                    ).is_err() {
                        self.input_buffer = "Invalid date — use YYYY-MM-DD".to_owned();
                    } else if self.list_add_stage == 4 {
                        self.file_vacation();
                    } else {
                        let text = self.next_vacation_field();
                        self.take_field(text);
                    }
                },
                Key::Esc => self.close_form(),
                _ => {},
            }
        }
    }

    fn edit_picked_vacation(&mut self)
        ensures
            if old(self).list_cursor < old(self).vacation_data.vacations@.len() {
                form_opened(
                    *old(self),
                    *final(self),
                    Some(old(self).list_cursor),
                    old(self).vacation_data.vacations@[old(self).list_cursor as int].destination@,
                )
            } else {
                *final(self) == *old(self)
            },
    {
        if self.list_cursor < self.vacation_data.vacations.len() {
            let text = self.vacation_data.vacations[self.list_cursor].destination.clone();
            self.open_form(Some(self.list_cursor), text);
        }
    }

    fn remove_holiday(&mut self)
        ensures
            holiday_removed(*old(self), *final(self)),
    {
        let lines = self.holiday_data.holidays.len();
        if self.list_cursor < lines {
            self.holiday_data.holidays.remove(self.list_cursor);
            if self.list_cursor > 0 && self.list_cursor >= lines - 1 {
                self.list_cursor = self.list_cursor - 1;
            }
        }
    }

    fn file_holiday(&mut self)
        ensures
            holiday_filed(*old(self), *final(self)),
    {
        let entry = self.input_buffer.clone();
        let ghost fields = self.list_field_bufs@;
        self.list_field_bufs.push(entry);
        assert(forall|i: int|
            0 <= i < 2 ==> #[trigger] field_of(self.list_field_bufs@, Seq::empty(), i) == field_of(
                fields,
                old(self).input_buffer@,
                i,
            ));
        let holiday = Holiday::new(self.form_field(1), self.form_field(0));
        assert(is_holiday_of(holiday, fields, old(self).input_buffer@));
        match self.list_edit_index {
            Some(line) => {
                if line < self.holiday_data.holidays.len() {
                    self.holiday_data.holidays.set(line, holiday);
                }
            },
            None => {
                self.holiday_data.add(holiday);
            },
        }
        self.close_form();
    }

    fn next_holiday_field(&self) -> (r: String)
        ensures
            r@ == holiday_field_text(self.holiday_data.holidays@, self.list_edit_index),
    {
        match self.list_edit_index {
            Some(line) => {
                if line < self.holiday_data.holidays.len() {
                    self.holiday_data.holidays[line].name.clone()
                } else {
                    String::new()
                }
            },
            None => String::new(),
        }
    }

    fn edit_picked_holiday(&mut self)
        ensures
            if old(self).list_cursor < old(self).holiday_data.holidays@.len() {
                form_opened(
                    *old(self),
                    *final(self),
                    Some(old(self).list_cursor),
                    old(self).holiday_data.holidays@[old(self).list_cursor as int].date@,
                )
            } else {
                *final(self) == *old(self)
            },
    {
        if self.list_cursor < self.holiday_data.holidays.len() {
            let text = self.holiday_data.holidays[self.list_cursor].date.clone();
            self.open_form(Some(self.list_cursor), text);
        }
    }

    /// One key in the holiday view.
    pub fn handle_holiday_key(&mut self, key: Key)
        ensures
            holiday_key_effect(*old(self), *final(self), key),
    {
        if self.list_add_stage == 0 {
            let lines = self.holiday_data.holidays.len();
            match key {
                Key::Up => self.move_line_up(),
                Key::Down => self.move_line_down(lines),
                Key::Enter => self.edit_picked_holiday(),
                Key::Delete => self.remove_holiday(),
                Key::Esc => {
                    self.view_state = ViewState::Calendar;
                },
                Key::Char(c) => {
                    if c == 'a' {
                        self.open_form(None, String::new());
                    } else if c == 'e' {
                        self.edit_picked_holiday();
                    } else if c == 'x' {
                        self.remove_holiday();
                    } else if c == 'q' {
                        self.view_state = ViewState::Calendar;
                    }
                },
                _ => {},
            }
        } else {
            match key {
                Key::Char(_) | Key::Backspace => self.edit_text(key),
                Key::Enter => {
                    if self.list_add_stage == 1 && Date::parse(self.input_buffer.as_str()).is_err() {
                        self.input_buffer = "Invalid date — use YYYY-MM-DD".to_owned();
                    } else if self.list_add_stage == 2 {
                        self.file_holiday();
                    } else {
                        let text = self.next_holiday_field();
                        self.take_field(text);
                    }
                },
                Key::Esc => self.close_form(),
                _ => {},
            }
        }
    }

    fn open_setting(&mut self)
        ensures
            setting_opened(*old(self), *final(self)),
    {
        self.input_buffer = if self.list_cursor == 0 {
            self.settings.default_office.clone()
        } else {
            self.settings.flex_credit.clone()
        };
        self.list_add_stage = 1;
    }

    /// One key in the settings view.
    pub fn handle_settings_key(&mut self, key: Key)
        ensures
            settings_key_effect(*old(self), *final(self), key),
    {
        if self.list_add_stage == 0 {
            match key {
                Key::Up => self.move_line_up(),
                Key::Down => self.move_line_down(2),
                Key::Enter => self.open_setting(),
                Key::Esc => {
                    self.view_state = ViewState::Calendar;
                },
                Key::Char(c) => {
                    if c == 'e' {
                        self.open_setting();
                    } else if c == 'q' {
                        self.view_state = ViewState::Calendar;
                    }
                },
                _ => {},
            }
        } else {
            match key {
                Key::Char(_) | Key::Backspace => self.edit_text(key),
                Key::Enter => {
                    let value = self.input_buffer.clone();
                    if self.list_cursor == 0 {
                        self.settings.default_office = value;
                    } else {
                        self.settings.flex_credit = value;
                    }
                    self.input_buffer = String::new();
                    self.list_add_stage = 0;
                },
                Key::Esc => {
                    self.input_buffer = String::new();
                    self.list_add_stage = 0;
                },
                _ => {},
            }
        }
    }
}

} // verus!
