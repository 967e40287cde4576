//! The form's widgets: their state, and the text each one shows.
//! Drawing them on the terminal is left to the front end.
pub mod button;
pub mod checkbox;
pub mod crate_input;
pub mod crate_search;
pub mod input;
pub mod list_builder;
pub mod multiselect;
pub mod select;
pub mod text_input;
