use vstd::prelude::*;
use vstd::string::StringExecFns;
use crate::scheduler::POLL_INTERVAL_MS;

verus! {

/// Everything the collector is configured with.
#[derive(Debug, Clone, PartialEq, Eq)]
pub struct Config {
    /// The API key sent with every request.
    pub credential: String,
    /// The pause between two cycles, in milliseconds.
    pub poll_interval_ms: u64,
    /// Where the time-series store listens.
    pub store_endpoint: String,
    /// The database that the points are written to.
    pub database: String,
    /// The directory the background process works in.
    pub working_dir: String,
    /// The file that standard output is redirected to.
    pub output_log: String,
    /// The file that standard error is redirected to.
    pub error_log: String,
    /// The file that holds the process id and marks the running instance.
    pub pid_file: String,
}

/// The application directory below a home directory.
pub open spec fn app_dir(home: Seq<char>) -> Seq<char> {
    home + "/.cmc_influx"@
}

impl Config {
    /// The baseline configuration for a home directory and a credential: a
    /// pause of 60 seconds, the local store, and all files in the
    /// application directory below `home`.
    pub fn baseline(home: &str, credential: &str) -> (c: Config)
        ensures
            c.credential@ == credential@,
            c.poll_interval_ms == 60000,
            c.store_endpoint@ == "http://localhost:8086"@,
            c.database@ == "cmc_prices"@,
            c.working_dir@ == app_dir(home@),
            c.output_log@ == home@ + "/.cmc_influx/output.log"@,
            c.error_log@ == home@ + "/.cmc_influx/error.log"@,
            c.pid_file@ == home@ + "/.cmc_influx/pid"@,
    {
        Config {
            credential: credential.to_owned(),
            poll_interval_ms: POLL_INTERVAL_MS,
            store_endpoint: "http://localhost:8086".to_owned(),
            database: "cmc_prices".to_owned(),
            working_dir: home.to_owned().concat("/.cmc_influx"),
            output_log: home.to_owned().concat("/.cmc_influx/output.log"),
            error_log: home.to_owned().concat("/.cmc_influx/error.log"),
            pid_file: home.to_owned().concat("/.cmc_influx/pid"),
        }
    }
}

} // verus!
