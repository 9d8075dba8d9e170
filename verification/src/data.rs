//! The records the tool keeps: holidays, vacations, badge-ins, events,
//! quarters and settings.

pub mod app_settings;
pub mod badge_entry;
pub mod event;
pub mod holiday;
pub mod quarter;
pub mod vacation;

pub use app_settings::AppSettings;
pub use badge_entry::{BadgeEntry, BadgeEntryData};
pub use event::{Event, EventData};
pub use holiday::{Holiday, HolidayData};
pub use quarter::{QuarterConfig, QuarterData, QuarterError};
pub use vacation::{Vacation, VacationData};
