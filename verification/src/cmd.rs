//! What the commands print, as text, the records a new data directory
//! starts with, and the steps of the backup command.

pub mod backup;
pub mod holidays;
pub mod init;
pub mod stats;
pub mod vacations;
