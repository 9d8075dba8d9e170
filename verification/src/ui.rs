//! The terminal screen, as far as it can be computed: the state that the
//! keys move, month arithmetic, the search over events, what the panels
//! say and in which colours, and the steps of a backup.

pub mod app;
pub mod backup;
pub mod calendar_keys;
pub mod calendar_view;
pub mod display;
pub mod keys;
pub mod list_keys;
pub mod panels;
