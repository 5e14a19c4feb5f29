//! The requests of the command-line front end, as plain data.
use vstd::prelude::*;

verus! {

/// A request of the command-line front end.
#[derive(Clone, Debug)]
pub enum Command {
    Init { name: String, template: Option<String> },
    Start { name: String, cpus: Option<u32>, memory: Option<String>, disk: Option<String>, port: Vec<String> },
    Stop { name: String, force: bool },
    Delete { name: String, force: bool },
    Status { name: Option<String> },
    Deploy { name: String, image_path: String, restart: bool },
    Logs { name: String, follow: bool, tail: Option<usize> },
    Run { name: String, command: String, transport: Option<String> },
    Config { action: ConfigAction },
    Data { operation: DataOperation },
}

/// A configuration request of the front end.
#[derive(Clone, Debug)]
pub enum ConfigAction {
    Get { name: String, key: String },
    Put { name: String, key: String, value: String },
    List { name: String },
}

/// A data-transfer request of the front end.
#[derive(Clone, Debug)]
pub enum DataOperation {
    Sync { name: String, source: String, dest: String },
    List { name: String },
}

} // verus!
