//! A personal portfolio site as plain values: the pages, the cards on them and
//! the widgets around them are computed as trees of markup, and the two pieces
//! of state (the reveal toggle and the demo counter) change only through their
//! update functions. Everything here is pure; a rendering shell turns the
//! trees into a live page and feeds clicks back in as messages.

pub mod components;
pub mod html;
pub mod pages;
pub mod route;
