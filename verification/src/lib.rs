pub mod admin;
pub mod error;
pub mod ws;
pub mod cli;
