//! What the library promises as a whole: laws over what its functions return, each
//! stated in terms of what goes in and what comes out.
pub mod actions;
pub mod callers;
pub mod capture;
pub mod collector;
pub mod content;
pub mod events;
pub mod files;
pub mod history;
pub mod jobs;
pub mod publishing;
pub mod requests;
pub mod screenshots;
pub mod search;
pub mod sessions;
pub mod settings;
pub mod steps;
pub mod store;
pub mod texts;
pub mod waiting;
