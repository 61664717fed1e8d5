//! Process configuration as plain values. The front end parses the command
//! line and the configuration file and hands these records over.

use vstd::prelude::*;

verus! {

/// What the command line carries: where the configuration file is, and
/// whether to drop all tables before starting.
#[derive(Clone, Debug)]
pub struct CLIArguments {
    /// Path to configuration file.
    pub config_path: String,
    /// If set, the service drops all store tables before setting up anew.
    pub start_anew: bool,
}

/// [`Config`] defines configuration for this service.
#[derive(Clone, Debug)]
pub struct Config {
    /// User name for the service store.
    pub db_user: String,
    /// User password for the service store.
    pub db_user_pw: String,
    /// Host name for the service store.
    pub db_host: String,
    /// Database name for the service store.
    pub db_name: String,
    /// Directory for storing service logs.
    pub logs_dir: String,
    /// Listening port for the service.
    pub port_number: u16,
}

} // verus!
