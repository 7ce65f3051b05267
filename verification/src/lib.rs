//! Clipboard history daemon: the rules that decide what is captured, kept,
//! shown, published and deleted, stated as contracts and proved.
pub mod actions;
pub mod api;
pub mod backend;
pub mod bytes;
pub mod capture;
pub mod classification;
pub mod client;
pub mod daemon;
pub mod digest;
pub mod editing;
pub mod editor;
pub mod fake;
pub mod history_search;
pub mod laws;
pub mod lease;
pub mod limit;
pub mod model;
pub mod policy;
pub mod protocol;
pub mod ringboard;
pub mod selection;
pub mod session;
pub mod settings;
pub mod stream;
pub mod text;
pub mod utf8;
