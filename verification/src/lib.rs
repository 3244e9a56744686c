//! Engine of a terminal feed reader: the feed model, the two selection lists,
//! the application state and the transitions that keys and finished background
//! work cause on it.

pub mod app;
pub mod config;
pub mod display;
pub mod editor;
pub mod engine;
pub mod markup;
pub mod model;
pub mod screen;
pub mod selection;
