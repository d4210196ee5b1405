pub mod client;
pub mod command;
pub mod event;
pub mod model;
pub mod state;
