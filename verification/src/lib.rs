//! View-state core of a terminal table browser: the selection and viewport of
//! a table, the scroll position of its detail pane, and the status line.

pub mod scroll;
pub mod status_bar;
pub mod table;
