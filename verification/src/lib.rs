//! A small text editor: a grid of characters with a real cursor and a
//! remembered ("image") column, plus the key-routing and auto-completion
//! rules of the query editor component around a `tui_textarea` text area.

pub mod editor;
pub mod components;
