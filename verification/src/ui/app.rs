//! The state of the calendar screen and what the keys do to it.
//!
//! The screen is a state machine. Its control state is the view that is
//! shown ([`ViewState`]), the mode of the calendar view ([`Mode`]) and the
//! stage of the form in a list view; the rest of the state is the records
//! and what is derived from them. [`App::handle_key`] takes one key and
//! moves the state. What the machine cannot do itself, it asks for: a
//! backup of the data directory is requested by a flag that the caller
//! clears, and its outcome is handed back as a status.

use crate::calc::quarter_calc::{attendance_of, calculate_quarter_stats, stats_hold, QuarterStats};
use crate::data::app_settings::AppSettings;
use crate::data::badge_entry::BadgeEntryData;
use crate::data::event::EventData;
use crate::data::holiday::HolidayData;
use crate::data::quarter::{
    is_first_quarter_holding, quarter_holds, year_span, QuarterConfig, QuarterData,
};
use crate::data::vacation::VacationData;
use crate::date::Date;
use vstd::prelude::*;

verus! {

/// The mode of the calendar view.
#[derive(Debug, Clone, Copy, PartialEq, Eq)]
pub enum Mode {
    /// Keys move the selection and act on the selected day.
    Normal,
    /// Keys write the description of a new event.
    Add,
    /// Keys pick one of the selected day's events to delete.
    Delete,
    /// Keys write a search over the events.
    Search,
}

/// The view that is shown.
#[derive(Debug, Clone, Copy, PartialEq, Eq)]
pub enum ViewState {
    Calendar,
    Vacations,
    Holidays,
    Settings,
}

/// A key, as far as the screen tells keys apart.
#[derive(Debug, Clone, Copy, PartialEq, Eq)]
pub enum Key {
    Left,
    Right,
    Up,
    Down,
    Enter,
    Esc,
    Backspace,
    Delete,
    Char(char),
    /// Any other key.
    Other,
}

/// A colour of the screen.
#[derive(Debug, Clone, Copy, PartialEq, Eq)]
pub enum Tone {
    Black,
    White,
    DarkGray,
    Red,
    Yellow,
    Green,
    Cyan,
    /// The reddish orange of flex credits.
    Orange,
}

/// The state of the screen.
pub struct App {
    pub quarter_data: QuarterData,
    pub badge_data: BadgeEntryData,
    pub holiday_data: HolidayData,
    pub vacation_data: VacationData,
    pub event_data: EventData,
    /// The place of the quarter on view in `quarter_data`.
    pub current_quarter: Option<usize>,
    pub selected_date: Date,
    pub today: Date,
    /// Where the quarter keys have moved to, also when no quarter is there.
    pub nav_date: Date,
    pub mode: Mode,
    pub input_buffer: String,
    /// The picked event in delete mode.
    pub cursor_index: usize,
    pub quarter_stats: Option<QuarterStats>,
    /// The statistics of the whole year of the quarter on view.
    pub year_stats: Option<QuarterStats>,
    pub settings: AppSettings,
    /// The badge-ins as they were when what-if mode was entered.
    pub what_if_snapshot: Option<BadgeEntryData>,
    /// The outcome of the last backup; a key in the calendar view clears it.
    pub git_status: Option<(String, Tone)>,
    /// A backup of the data directory is asked for.
    pub backup_requested: bool,
    pub view_state: ViewState,
    /// The picked line in a list view.
    pub list_cursor: usize,
    /// 0 while a list is browsed; the number of the field that is being
    /// entered while a form is filled in.
    pub list_add_stage: u8,
    /// The fields of the form that are entered.
    pub list_field_bufs: Vec<String>,
    /// The line that the form edits; `None` for a new line.
    pub list_edit_index: Option<usize>,
}

/// The parts of the state that a step may change.
pub struct Touched {
    pub badge_data: bool,
    pub holiday_data: bool,
    pub vacation_data: bool,
    pub event_data: bool,
    pub current_quarter: bool,
    pub selected_date: bool,
    pub nav_date: bool,
    pub mode: bool,
    pub input_buffer: bool,
    pub cursor_index: bool,
    pub stats: bool,
    pub settings: bool,
    pub what_if_snapshot: bool,
    pub git_status: bool,
    pub backup_requested: bool,
    pub view_state: bool,
    pub list_cursor: bool,
    pub list_add_stage: bool,
    pub list_field_bufs: bool,
    pub list_edit_index: bool,
}

/// No part.
pub open spec fn nothing() -> Touched {
    Touched {
        badge_data: false,
        holiday_data: false,
        vacation_data: false,
        event_data: false,
        current_quarter: false,
        selected_date: false,
        nav_date: false,
        mode: false,
        input_buffer: false,
        cursor_index: false,
        stats: false,
        settings: false,
        what_if_snapshot: false,
        git_status: false,
        backup_requested: false,
        view_state: false,
        list_cursor: false,
        list_add_stage: false,
        list_field_bufs: false,
        list_edit_index: false,
    }
}

/// Whether `after` is `before` in every part but those of `touched`. The
/// quarters and the day that counts as today never change.
pub open spec fn rest_unchanged(before: App, after: App, touched: Touched) -> bool {
    &&& after.quarter_data == before.quarter_data
    &&& after.today == before.today
    &&& touched.badge_data || after.badge_data == before.badge_data
    &&& touched.holiday_data || after.holiday_data == before.holiday_data
    &&& touched.vacation_data || after.vacation_data == before.vacation_data
    &&& touched.event_data || after.event_data == before.event_data
    &&& touched.current_quarter || after.current_quarter == before.current_quarter
    &&& touched.selected_date || after.selected_date == before.selected_date
    &&& touched.nav_date || after.nav_date == before.nav_date
    &&& touched.mode || after.mode == before.mode
    &&& touched.input_buffer || after.input_buffer == before.input_buffer
    &&& touched.cursor_index || after.cursor_index == before.cursor_index
    &&& touched.stats || (after.quarter_stats == before.quarter_stats && after.year_stats
        == before.year_stats)
    &&& touched.settings || after.settings == before.settings
    &&& touched.what_if_snapshot || after.what_if_snapshot == before.what_if_snapshot
    &&& touched.git_status || after.git_status == before.git_status
    &&& touched.backup_requested || after.backup_requested == before.backup_requested
    &&& touched.view_state || after.view_state == before.view_state
    &&& touched.list_cursor || after.list_cursor == before.list_cursor
    &&& touched.list_add_stage || after.list_add_stage == before.list_add_stage
    &&& touched.list_field_bufs || after.list_field_bufs == before.list_field_bufs
    &&& touched.list_edit_index || after.list_edit_index == before.list_edit_index
}

/// The quarter on view, if `current_quarter` is a place in the list.
pub open spec fn quarter_on_view(app: App) -> Option<QuarterConfig> {
    match app.current_quarter {
        Some(i) => if i < app.quarter_data.quarters@.len() {
            Some(app.quarter_data.quarters@[i as int])
        } else {
            None
        },
        None => None,
    }
}

/// Whether the statistics of the quarter on view are those of the records,
/// as of some day: there are none without a quarter on view or where its
/// dates were not read.
pub open spec fn quarter_stats_current(app: App) -> bool {
    match quarter_on_view(app) {
        Some(q) => match (q.start_date, q.end_date) {
            (Some(start), Some(end)) => app.quarter_stats matches Some(stats) && exists|as_of: int|
                #[trigger] stats_hold(
                    stats,
                    q.key@,
                    start@,
                    end@,
                    as_of,
                    attendance_of(
                        app.badge_data.data@,
                        app.holiday_data.holidays@,
                        app.vacation_data.vacations@,
                        start@,
                        end@,
                    ),
                ),
            _ => app.quarter_stats is None,
        },
        None => app.quarter_stats is None,
    }
}

/// The key of the statistics of year `year`.
pub open spec fn year_key(year: Seq<char>) -> Seq<char> {
    "YEAR_"@ + year
}

/// Whether the statistics of the year of the quarter on view are those of
/// the records, as of some day, over the year's range: there are none
/// without a quarter on view or where the year has no range.
pub open spec fn year_stats_current(app: App) -> bool {
    match quarter_on_view(app) {
        Some(q) => match year_span(app.quarter_data.quarters@, q.year@) {
            Some((start, end)) => app.year_stats matches Some(stats) && exists|as_of: int|
                #[trigger] stats_hold(
                    stats,
                    year_key(q.year@),
                    start,
                    end,
                    as_of,
                    attendance_of(
                        app.badge_data.data@,
                        app.holiday_data.holidays@,
                        app.vacation_data.vacations@,
                        start,
                        end,
                    ),
                ),
            None => app.year_stats is None,
        },
        None => app.year_stats is None,
    }
}

impl App {
    /// The screen at its start: the calendar view in normal mode, today
    /// selected, on the first quarter that holds today, with its
    /// statistics.
    pub fn new(
        quarter_data: QuarterData,
        badge_data: BadgeEntryData,
        holiday_data: HolidayData,
        vacation_data: VacationData,
        event_data: EventData,
        settings: AppSettings,
        today: Date,
    ) -> (app: App)
        ensures
            app.quarter_data == quarter_data,
            app.badge_data == badge_data,
            app.holiday_data == holiday_data,
            app.vacation_data == vacation_data,
            app.event_data == event_data,
            app.settings == settings,
            app.today == today,
            app.selected_date == today,
            match app.current_quarter {
                Some(i) => is_first_quarter_holding(quarter_data.quarters@, today@, i as int)
                    && quarter_data.quarters@[i as int].start_date == Some(app.nav_date),
                None => app.nav_date == today && forall|i: int|
                    0 <= i < quarter_data.quarters@.len() ==> !quarter_holds(
                        (#[trigger] quarter_data.quarters@[i])@,
                        today@,
                    ),
            },
            app.mode == Mode::Normal,
            app.view_state == ViewState::Calendar,
            app.input_buffer@.len() == 0,
            app.cursor_index == 0,
            app.what_if_snapshot is None,
            app.git_status is None,
            !app.backup_requested,
            app.list_cursor == 0,
            app.list_add_stage == 0,
            app.list_field_bufs@.len() == 0,
            app.list_edit_index is None,
            quarter_stats_current(app),
            year_stats_current(app),
    {
        let current_quarter = quarter_data.position_by_date(today);
        let nav_date = match current_quarter {
            Some(i) => match quarter_data.quarters[i].start_date {
                Some(start) => start,
                None => today,
            },
            None => today,
        };
        let mut app = App {
            quarter_data,
            badge_data,
            holiday_data,
            vacation_data,
            event_data,
            current_quarter,
            selected_date: today,
            today,
            nav_date,
            mode: Mode::Normal,
            input_buffer: String::new(),
            cursor_index: 0,
            quarter_stats: None,
            year_stats: None,
            settings,
            what_if_snapshot: None,
            git_status: None,
            backup_requested: false,
            view_state: ViewState::Calendar,
            list_cursor: 0,
            list_add_stage: 0,
            list_field_bufs: Vec::new(),
            list_edit_index: None,
        };
        app.update_stats();
        app
    }

    /// The quarter on view.
    pub fn current_quarter(&self) -> (r: Option<&QuarterConfig>)
        ensures
            match r {
                Some(q) => quarter_on_view(*self) == Some(*q),
                None => quarter_on_view(*self) is None,
            },
    {
        match self.current_quarter {
            Some(i) => if i < self.quarter_data.quarters.len() {
                Some(&self.quarter_data.quarters[i])
            } else {
                None
            },
            None => None,
        }
    }

    /// Whether what-if mode is on: badge-ins are tried out and will be
    /// put back.
    pub fn is_what_if(&self) -> (r: bool)
        ensures
            r == self.what_if_snapshot is Some,
    {
        self.what_if_snapshot.is_some()
    }

    /// Takes the request for a backup, if there is one: says whether there
    /// was, and clears it.
    pub fn take_backup_request(&mut self) -> (asked: bool)
        ensures
            asked == old(self).backup_requested,
            rest_unchanged(
                *old(self),
                *final(self),
                Touched { backup_requested: true, ..nothing() },
            ),
            !final(self).backup_requested,
    {
        let asked = self.backup_requested;
        self.backup_requested = false;
        asked
    }

    /// Shows the outcome of a backup until the next key of the calendar
    /// view.
    pub fn show_backup_status(&mut self, message: String, tone: Tone)
        ensures
            rest_unchanged(*old(self), *final(self), Touched { git_status: true, ..nothing() }),
            final(self).git_status == Some((message, tone)),
    {
        self.git_status = Some((message, tone));
    }

    /// Computes the statistics of the quarter on view and of its year
    /// anew, as of today's date by the local clock.
    pub fn update_stats(&mut self)
        ensures
            rest_unchanged(*old(self), *final(self), Touched { stats: true, ..nothing() }),
            quarter_stats_current(*final(self)),
            year_stats_current(*final(self)),
    {
        let place = match self.current_quarter {
            Some(i) => if i < self.quarter_data.quarters.len() {
                Some(i)
            } else {
                None
            },
            None => None,
        };
        match place {
            Some(i) => {
                let quarter = &self.quarter_data.quarters[i];
                let quarter_stats = match calculate_quarter_stats(
                    quarter,
                    &self.badge_data,
                    &self.holiday_data,
                    &self.vacation_data,
                    None,
                ) {
                    Ok(stats) => Some(stats),
                    Err(_) => None,
                };
                let year_stats = match self.quarter_data.year_range(quarter.year.as_str()) {
                    Some((start, end)) => {
                        let mut key = "YEAR_".to_owned();
                        key.append(quarter.year.as_str());
                        let year_quarter = QuarterConfig {
                            key,
                            quarter: "YEAR".to_owned(),
                            year: quarter.year.clone(),
                            start_date_raw: start.key(),
                            end_date_raw: end.key(),
                            start_date: Some(start),
                            end_date: Some(end),
                        };
                        assert(year_quarter.key@ == year_key(quarter.year@));
                        assert(year_span(self.quarter_data.quarters@, quarter.year@) == Some(
                            (start@, end@),
                        ));
                        match calculate_quarter_stats(
                            &year_quarter,
                            &self.badge_data,
                            &self.holiday_data,
                            &self.vacation_data,
                            None,
                        ) {
                            Ok(stats) => Some(stats),
                            Err(_) => None,
                        }
                    },
                    None => None,
                };
                proof {
                    let before = *old(self);
                    assert(quarter_on_view(before) == Some(*quarter));
                    assert(match (quarter.start_date, quarter.end_date) {
                        (Some(start), Some(end)) => quarter_stats matches Some(stats) && exists|
                            as_of: int,
                        |
                            #[trigger] stats_hold(
                                stats,
                                quarter.key@,
                                start@,
                                end@,
                                as_of,
                                attendance_of(
                                    before.badge_data.data@,
                                    before.holiday_data.holidays@,
                                    before.vacation_data.vacations@,
                                    start@,
                                    end@,
                                ),
                            ),
                        _ => quarter_stats is None,
                    });
                    assert(match year_span(before.quarter_data.quarters@, quarter.year@) {
                        Some((start, end)) => year_stats matches Some(stats) && exists|as_of: int|
                            #[trigger] stats_hold(
                                stats,
                                year_key(quarter.year@),
                                start,
                                end,
                                as_of,
                                attendance_of(
                                    before.badge_data.data@,
                                    before.holiday_data.holidays@,
                                    before.vacation_data.vacations@,
                                    start,
                                    end,
                                ),
                            ),
                        None => year_stats is None,
                    });
                }
                self.quarter_stats = quarter_stats;
                self.year_stats = year_stats;
            },
            None => {
                self.quarter_stats = None;
                self.year_stats = None;
            },
        }
    }
}

} // verus!
