//! The decisions of a Unix-socket broker around the Proton Pass command line tool.

pub mod command;
pub mod config;
pub mod encoding;
pub mod error;
pub mod healthcheck;
pub mod http;
pub mod json;
pub mod reference;
pub mod schedule;
pub mod server;
pub mod session;
pub mod session_cases;
pub mod session_laws;
pub mod session_outcome;
pub mod text;
pub mod token;
