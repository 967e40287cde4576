//! Prompt generator library: blueprints, form state, drafts, prompts and the
//! decisions of the terminal front end.
pub mod app;
pub mod blueprint;
pub mod clock;
pub mod draft;
pub mod events;
pub mod form;
pub mod keyed;
pub mod laws;
pub mod layout;
pub mod listing;
pub mod preview;
pub mod prompt;
pub mod registry;
pub mod text;
pub mod widgets;
