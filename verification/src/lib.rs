//! Delivery workflow library: configuration, URL building, version
//! bumping, git output interpretation, token storage and project layout.
pub mod text;
pub mod errors;
pub mod path;
pub mod config;
pub mod matching;
pub mod cookbook;
pub mod git;
pub mod token;
pub mod http;
pub mod json;
pub mod project;
pub mod delivery_config;
pub mod job;
pub mod user;
pub mod command;
pub mod cli;
pub mod fips;
