//! The process configuration: connection string, environment name, log level
//! and per-crawler enable flags. It is loaded once at startup; the pipeline
//! only reads it.
use vstd::prelude::*;

verus! {

#[derive(Debug, Clone, PartialEq)]
pub struct CrawlerConfig {
    pub additional: bool,
    pub discovery: bool,
    pub video: bool,
    pub channel: bool,
}

#[derive(Debug, Clone, PartialEq)]
pub struct Config {
    pub mongo_connection_string: String,
    pub environment: String,
    pub log_level: String,
    pub crawler: CrawlerConfig,
}

} // verus!
