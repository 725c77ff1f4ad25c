//! The logic of a terminal browser for lists.
pub mod text;
pub mod column;
pub mod items;
pub mod json;
pub mod api;
pub mod query;
pub mod socket;
pub mod clipboard;
pub mod layout;
pub mod dialog;
pub mod edit;
pub mod editor;
pub mod state;
pub mod action;
pub mod load;
pub mod change;
pub mod input;
pub mod keys;
pub mod live;
pub mod mouse;
pub mod update;
pub mod cells;
pub mod screen;
pub mod draw;
pub mod valid;
pub mod laws;
pub mod reading;
pub mod promises;
pub mod clicks;
pub mod answers;
pub mod display;
pub mod links;
