//! Calendar state and grid-mapping engine for a terminal contribution graph:
//! the session and its cursor over a jagged grid of weeks, year switching and
//! timed refresh, and the layout that a drawing layer needs.
pub mod contribution;
pub mod app;
pub mod text;
pub mod date;
pub mod github;
pub mod layout;
pub mod event;
