//! The companion widget of a terminal chat interface: a small pet that sits
//! beside or above the composer, reacts to plugin events and, for some
//! reactions, shows a banner.
pub mod text;
pub mod banner;
pub mod style;
pub mod protocol;
pub mod model;
pub mod terminal;
pub mod widget;
pub mod layout;
pub mod laws;
