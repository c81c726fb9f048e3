//! Verified core of a bridge between the COSMIC desktop's theming and
//! configuration services and a foreign toolkit.
//!
//! - [`theme`] keeps the loaded theme and toolkit preferences and answers the
//!   foreign toolkit's questions about them; [`font`] and [`cstring`] say how
//!   fonts and text are handed over.
//! - [`subscription`], [`lifecycle`] and [`watcher`] decide what a
//!   configuration watcher listens to and how it reacts; [`history`] proves
//!   what holds of a watcher over its whole life.

pub mod cstring;
pub mod font;
pub mod history;
pub mod lifecycle;
pub mod subscription;
pub mod theme;
pub mod watcher;
