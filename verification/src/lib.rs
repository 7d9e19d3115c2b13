pub mod client;
pub mod config;
pub mod feed;
pub mod present;
pub mod select;
pub mod text;
