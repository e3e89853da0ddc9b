//! The widgets the pages are built from.

pub mod app;
pub mod button;
pub mod card;
pub mod container;
pub mod counter;
pub mod navbar;
pub mod secret_switch;
