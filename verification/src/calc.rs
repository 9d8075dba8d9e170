//! The quarter compliance engine: the workday calendar of a date range and
//! the statistics computed over it.

pub mod laws;
pub mod metrics;
pub mod quarter_calc;
pub mod tally;
pub mod workday;

pub use metrics::{ComplianceStatus, DayCounts, Metrics, Ratio};
pub use quarter_calc::{calculate_quarter_stats, quarter_stats_as_of, QuarterStats};
pub use workday::{create_workday_map, is_workday, Workday};
