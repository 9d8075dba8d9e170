//! What the panels of the screen say: the month of the calendar as a grid
//! of days, the style of each day, the lines of the event panel and of the
//! forms.

use crate::data::event::{referents, Event};
use crate::date::{date_key, Date};
use crate::ui::app::{App, Mode};
use crate::ui::calendar_keys::events_of_selected_day;
use crate::ui::calendar_view::{is_match_for, search_events};
use crate::ui::display::{calendar_day_style, day_style, DayStyle};
use vstd::prelude::*;

verus! {

/// The day of a month in row `row` and column `col` of its grid of weeks,
/// for a month of `days` days whose first day stands in column `first`
/// (0 for Sunday); `None` where the grid is blank.
pub open spec fn grid_day(first: int, days: int, row: int, col: int) -> Option<int> {
    let day = row * 7 + col - first + 1;
    if 1 <= day <= days {
        Some(day)
    } else {
        None
    }
}

/// The number of rows of the grid: as many weeks as the month touches, six
/// at most.
pub open spec fn grid_rows(first: int, days: int) -> int {
    if days <= 0 {
        0
    } else if (first + days + 6) / 7 > 6 {
        6
    } else {
        (first + days + 6) / 7
    }
}

/// The grid of weeks of a month of `days` days whose first day stands in
/// column `first` (0 for Sunday, up to 6 for Saturday): rows of seven
/// cells, a day or a blank in each.
pub fn month_grid(first: u32, days: u32) -> (grid: Vec<Vec<Option<u32>>>)
    ensures
        grid@.len() == grid_rows(first as int, days as int),
        forall|row: int| 0 <= row < grid@.len() ==> (#[trigger] grid@[row])@.len() == 7,
        forall|row: int, col: int|
            0 <= row < grid@.len() && 0 <= col < 7 ==> match grid_day(
                first as int,
                days as int,
                row,
                col,
            ) {
                Some(day) => #[trigger] grid@[row]@[col] == Some(day as u32),
                None => grid@[row]@[col] is None,
            },
{
    let weeks: u64 = (first as u64 + days as u64 + 6) / 7;
    let rows: u64 = if days == 0 {
        0
    } else if weeks > 6 {
        6
    } else {
        weeks
    };
    let mut grid: Vec<Vec<Option<u32>>> = Vec::new();
    let mut row: u64 = 0;
    while row < rows
        invariant
            rows <= 6,
            row <= rows,
            grid@.len() == row,
            forall|r: int| 0 <= r < grid@.len() ==> (#[trigger] grid@[r])@.len() == 7,
            forall|r: int, c: int|
                0 <= r < grid@.len() && 0 <= c < 7 ==> match grid_day(
                    first as int,
                    days as int,
                    r,
                    c,
                ) {
                    Some(d) => #[trigger] grid@[r]@[c] == Some(d as u32),
                    None => grid@[r]@[c] is None,
                },
        decreases rows - row,
    {
        let mut cells: Vec<Option<u32>> = Vec::new();
        let mut col: u64 = 0;
        while col < 7
            invariant
                row < 6,
                col <= 7,
                cells@.len() == col,
                forall|c: int|
                    0 <= c < col ==> match grid_day(first as int, days as int, row as int, c) {
                        Some(d) => #[trigger] cells@[c] == Some(d as u32),
                        None => cells@[c] is None,
                    },
            decreases 7 - col,
        {
            let place: u64 = row * 7 + col + 1;
            if place > first as u64 && place - first as u64 <= days as u64 {
                cells.push(Some((place - first as u64) as u32));
            } else {
                cells.push(None);
            }
            col = col + 1;
        }
        grid.push(cells);
        row = row + 1;
    }
    grid
}

/// The column of a weekday in a week that starts on Sunday, for a weekday
/// counted from Monday.
pub fn column_of_weekday(weekday: u32) -> (col: u32)
    ensures
        col == (weekday + 1) % 7,
{
    let day: u32 = weekday % 7;
    if day == 6 {
        0
    } else {
        day + 1
    }
}

/// The texts of a list.
pub open spec fn texts(lines: Seq<String>) -> Seq<Seq<char>> {
    lines.map_values(|line: String| line@)
}

/// A line for each event: a bullet and the description.
pub open spec fn bullet_lines(events: Seq<Event>) -> Seq<Seq<char>> {
    Seq::new(events.len(), |i: int| "  • "@ + events[i].description@)
}

/// A line for each event: the description, marked where `cursor` is.
pub open spec fn pick_lines(events: Seq<Event>, cursor: int) -> Seq<Seq<char>> {
    Seq::new(
        events.len(),
        |i: int|
            (if i == cursor {
                "  > "@
            } else {
                "    "@
            }) + events[i].description@,
    )
}

/// A line for each event: the date and the description.
pub open spec fn match_lines(events: Seq<Event>) -> Seq<Seq<char>> {
    Seq::new(events.len(), |i: int| "  "@ + events[i].date@ + " — "@ + events[i].description@)
}

/// The lines of the event panel: a head with the selected day, and below
/// it what the mode asks for. Normal mode lists the events of the day;
/// add mode shows the text that is written; delete mode lists the events
/// of the day with the picked one marked; search mode shows the search and
/// lists the events that answer it.
pub open spec fn event_panel(app: App) -> Seq<Seq<char>> {
    let head = seq!["Events for "@ + date_key(app.selected_date@) + ":"@];
    let on_day = events_of_selected_day(app);
    match app.mode {
        Mode::Add => head + seq!["  Adding: "@ + app.input_buffer@ + "_"@],
        Mode::Delete => if on_day.len() == 0 {
            head + seq!["  Select event to delete:"@, "  (no events)"@]
        } else {
            head + seq!["  Select event to delete:"@] + pick_lines(
                on_day,
                app.cursor_index as int,
            ) + seq!["  Enter=delete  Esc=cancel  ↑↓=move"@]
        },
        Mode::Search => head + seq!["  Search: "@ + app.input_buffer@ + "_"@] + match_lines(
            app.event_data.events@.filter(is_match_for(app.input_buffer@)),
        ),
        Mode::Normal => if on_day.len() == 0 {
            head + seq!["  (no events)"@]
        } else {
            head + bullet_lines(on_day)
        },
    }
}

/// The field of a form in stage `stage` that comes `i`-th (from 0): what
/// was entered, for a field that is done; the text that is written, with
/// a cursor, for the field that is being entered; nothing for a field
/// that is still to come.
pub open spec fn form_value(app: App, i: int) -> Seq<char> {
    if i + 1 < app.list_add_stage {
        if i < app.list_field_bufs@.len() {
            app.list_field_bufs@[i]@
        } else {
            Seq::empty()
        }
    } else if i + 1 == app.list_add_stage {
        app.input_buffer@ + "_"@
    } else {
        Seq::empty()
    }
}

/// The lines of a form: for each label, the label, a colon and the field.
pub open spec fn form_panel(app: App, labels: Seq<&'static str>) -> Seq<Seq<char>> {
    Seq::new(labels.len(), |i: int| labels[i]@ + ": "@ + form_value(app, i))
}

/// The value that the settings view shows on line `i`: the text that is
/// written, with a cursor, if that line is being edited, and the setting
/// otherwise.
pub open spec fn setting_value(app: App, i: int) -> Seq<char> {
    if app.list_add_stage == 1 && app.list_cursor == i {
        app.input_buffer@ + "_"@
    } else if i == 0 {
        app.settings.default_office@
    } else {
        app.settings.flex_credit@
    }
}

fn three(a: &str, b: &str, c: &str) -> (r: String)
    ensures
        r@ == a@ + b@ + c@,
{
    let mut text = a.to_owned();
    text.append(b);
    text.append(c);
    text
}

impl App {
    /// The style of the day `date` in the calendar: by its record in the
    /// statistics of the quarter on view (a day without a record counts as
    /// a weekend day), by whether it is selected or today, and by whether
    /// it has an event.
    pub fn day_cell_style(&self, date: Date, has_event: bool) -> (r: DayStyle)
        ensures
            r == (match self.quarter_stats {
                Some(stats) => if stats.workday_stats@.contains_key(date_key(date@)) {
                    let day = stats.workday_stats@[date_key(date@)];
                    day_style(
                        date == self.selected_date,
                        day.is_badged_in,
                        day.is_flex_credit,
                        day.is_holiday || day.is_vacation,
                        date == self.today,
                        false,
                        has_event,
                    )
                } else {
                    day_style(
                        date == self.selected_date,
                        false,
                        false,
                        false,
                        date == self.today,
                        true,
                        has_event,
                    )
                },
                None => day_style(
                    date == self.selected_date,
                    false,
                    false,
                    false,
                    date == self.today,
                    true,
                    has_event,
                ),
            }),
    {
        broadcast use crate::date::lemma_date_by_day_number;

        let key = date.key();
        let is_selected = date.is_same(self.selected_date);
        let is_today = date.is_same(self.today);
        let record = match &self.quarter_stats {
            Some(stats) => stats.workday_stats.get(key.as_str()),
            None => None,
        };
        match record {
            Some(day) => calendar_day_style(
                is_selected,
                day.is_badged_in,
                day.is_flex_credit,
                day.is_holiday || day.is_vacation,
                is_today,
                false,
                has_event,
            ),
            None => calendar_day_style(is_selected, false, false, false, is_today, true, has_event),
        }
    }

    /// The lines of a form with the given labels.
    pub fn form_lines(&self, labels: &Vec<&'static str>) -> (lines: Vec<String>)
        ensures
            texts(lines@) == form_panel(*self, labels@),
    {
        let mut lines: Vec<String> = Vec::new();
        let mut n: usize = 0;
        assert(texts(lines@) =~= form_panel(*self, labels@).take(0));
        while n < labels.len()
            invariant
                n <= labels.len(),
                texts(lines@) == form_panel(*self, labels@).take(n as int),
            decreases labels.len() - n,
        {
            let field_number: usize = n + 1;
            let stage: usize = self.list_add_stage as usize;
            let value = if field_number < stage {
                if n < self.list_field_bufs.len() {
                    self.list_field_bufs[n].clone()
                } else {
                    String::new()
                }
            } else if field_number == stage {
                let mut text = self.input_buffer.clone();
                text.append("_");
                text
            } else {
                String::new()
            };
            let ghost before = texts(lines@);
            lines.push(three(labels[n], ": ", value.as_str()));
            proof {
                let all = form_panel(*self, labels@);
                assert(texts(lines@) =~= before.push(all[n as int]));
                assert(all.take(n + 1) =~= all.take(n as int).push(all[n as int]));
            }
            n = n + 1;
        }
        assert(form_panel(*self, labels@).take(n as int) =~= form_panel(*self, labels@));
        lines
    }

    /// The value that the settings view shows on line `i`.
    pub fn setting_line(&self, i: usize) -> (r: String)
        ensures
            r@ == setting_value(*self, i as int),
    {
        if self.list_add_stage == 1 && self.list_cursor == i {
            let mut text = self.input_buffer.clone();
            text.append("_");
            text
        } else if i == 0 {
            self.settings.default_office.clone()
        } else {
            self.settings.flex_credit.clone()
        }
    }

    /// The lines of the event panel.
    pub fn event_panel_lines(&self) -> (lines: Vec<String>)
        ensures
            texts(lines@) == event_panel(*self),
    {
        let key = self.selected_date.key();
        let mut lines: Vec<String> = Vec::new();
        lines.push(three("Events for ", key.as_str(), ":"));
        let ghost head = seq!["Events for "@ + date_key(self.selected_date@) + ":"@];
        assert(texts(lines@) =~= head);
        match self.mode {
            Mode::Add => {
                lines.push(three("  Adding: ", self.input_buffer.as_str(), "_"));
                assert(texts(lines@) =~= event_panel(*self));
            },
            Mode::Delete => {
                let on_day = self.event_data.events_on(key.as_str());
                assert(referents(on_day@).len() == on_day@.len());
                lines.push("  Select event to delete:".to_owned());
                assert(texts(lines@) =~= head + seq!["  Select event to delete:"@]);
                if on_day.len() == 0 {
                    lines.push("  (no events)".to_owned());
                    assert(texts(lines@) =~= event_panel(*self));
                } else {
                    let ghost start = texts(lines@);
                    let ghost events = referents(on_day@);
                    let mut n: usize = 0;
                    while n < on_day.len()
                        invariant
                            n <= on_day.len(),
                            events == referents(on_day@),
                            events.len() == on_day@.len(),
                            texts(lines@) == start + pick_lines(
                                events,
                                self.cursor_index as int,
                            ).take(n as int),
                        decreases on_day.len() - n,
                    {
                        let mark = if n == self.cursor_index {
                            "  > "
                        } else {
                            "    "
                        };
                        let ghost before = texts(lines@);
                        lines.push(three(mark, on_day[n].description.as_str(), ""));
                        proof {
                            reveal_strlit("");
                            assert(events[n as int] == *on_day@[n as int]);
                            let all = pick_lines(events, self.cursor_index as int);
                            assert(texts(lines@) =~= before.push(all[n as int]));
                            assert(all.take(n + 1) =~= all.take(n as int).push(all[n as int]));
                        }
                        n = n + 1;
                    }
                    let ghost listed = texts(lines@);
                    lines.push("  Enter=delete  Esc=cancel  ↑↓=move".to_owned());
                    proof {
                        let all = pick_lines(events, self.cursor_index as int);
                        assert(all.take(n as int) =~= all);
                        assert(texts(lines@) =~= listed.push(
                            "  Enter=delete  Esc=cancel  ↑↓=move"@,
                        ));
                        assert(texts(lines@) =~= event_panel(*self));
                    }
                }
            },
            Mode::Search => {
                lines.push(three("  Search: ", self.input_buffer.as_str(), "_"));
                let found = search_events(self.event_data.events.as_slice(), self.input_buffer.as_str());
                assert(referents(found@).len() == found@.len());
                let ghost start = texts(lines@);
                let ghost events = referents(found@);
                let mut n: usize = 0;
                while n < found.len()
                    invariant
                        n <= found.len(),
                        events == referents(found@),
                        events.len() == found@.len(),
                        texts(lines@) == start + match_lines(events).take(n as int),
                    decreases found.len() - n,
                {
                    let mut line = three("  ", found[n].date.as_str(), " — ");
                    line.append(found[n].description.as_str());
                    let ghost before = texts(lines@);
                    lines.push(line);
                    proof {
                        assert(events[n as int] == *found@[n as int]);
                        let all = match_lines(events);
                        assert(texts(lines@) =~= before.push(all[n as int]));
                        assert(all.take(n + 1) =~= all.take(n as int).push(all[n as int]));
                    }
                    n = n + 1;
                }
                proof {
                    let all = match_lines(events);
                    assert(all.take(n as int) =~= all);
                    assert(texts(lines@) =~= event_panel(*self));
                }
            },
            Mode::Normal => {
                let on_day = self.event_data.events_on(key.as_str());
                assert(referents(on_day@).len() == on_day@.len());
                if on_day.len() == 0 {
                    lines.push("  (no events)".to_owned());
                    assert(texts(lines@) =~= event_panel(*self));
                } else {
                    let ghost start = texts(lines@);
                    let ghost events = referents(on_day@);
                    let mut n: usize = 0;
                    while n < on_day.len()
                        invariant
                            n <= on_day.len(),
                            events == referents(on_day@),
                            events.len() == on_day@.len(),
                            texts(lines@) == start + bullet_lines(events).take(n as int),
                        decreases on_day.len() - n,
                    {
                        let ghost before = texts(lines@);
                        lines.push(three("  • ", on_day[n].description.as_str(), ""));
                        proof {
                            reveal_strlit("");
                            assert(events[n as int] == *on_day@[n as int]);
                            let all = bullet_lines(events);
                            assert(texts(lines@) =~= before.push(all[n as int]));
                            assert(all.take(n + 1) =~= all.take(n as int).push(all[n as int]));
                        }
                        n = n + 1;
                    }
                    proof {
                        let all = bullet_lines(events);
                        assert(all.take(n as int) =~= all);
                        assert(texts(lines@) =~= event_panel(*self));
                    }
                }
            },
        }
        lines
    }
}

} // verus!
