//! Configuration of a run: where the archives live, how often progress is
//! logged and checkpointed, the subreddit allow-list, the storage
//! connection parameters and the worker/queue sizing.
//!
//! Loading the configuration from disk is the embedding application's job;
//! it hands the parsed values over in these types.

use vstd::prelude::*;

verus! {

pub struct DatabaseConfig {
    pub host: String,
    pub port: u16,
    pub user: String,
    pub password: String,
    pub database: String,
}

pub struct Ingestion {
    pub push_summarized_db: bool,
    pub qsize_jobs_done: u64,
}

pub struct Parser {
    pub num_workers: u64,
    pub qsize_to_parse: u64,
}

pub struct Config {
    pub target_folder: String,
    pub log_frequency: u64,
    pub subreddit_list: Vec<String>,
    pub log_file: String,
    pub database: DatabaseConfig,
    pub ingestion: Ingestion,
    pub parser: Parser,
}

impl Config {
    /// The counts a run divides by or sizes queues with must be positive;
    /// a configuration that fails this is rejected at startup.
    pub open spec fn spec_usable(&self) -> bool {
        &&& self.log_frequency >= 1
        &&& self.parser.num_workers >= 1
        &&& self.parser.qsize_to_parse >= 1
        &&& self.ingestion.qsize_jobs_done >= 1
    }

    pub fn usable(&self) -> (r: bool)
        ensures
            r == self.spec_usable(),
    {
        self.log_frequency >= 1 && self.parser.num_workers >= 1 && self.parser.qsize_to_parse >= 1
            && self.ingestion.qsize_jobs_done >= 1
    }
}

} // verus!
