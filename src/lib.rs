//! A parameter panel for audio widgets: it dispatches widget events, keeps each
//! widget's normalized position and renders the most recent change as text.

pub mod audio;
pub mod ranges;
pub mod text;
pub mod panel;

pub use panel::{App, Message};
