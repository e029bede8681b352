//! The one-shot setup decisions: merging command-line values with the
//! configuration file's, and checking that a serial port was named at
//! all.
//!
//! Reading the configuration file, parsing the command line and
//! opening the port are the surrounding application's work; the rules
//! for combining what they produce live here.

use vstd::prelude::*;

verus! {

/// The values a configuration file may provide.
#[derive(Debug, PartialEq, Eq)]
pub struct Config {
    pub port: Option<String>,
    pub path: Option<String>,
}

impl Config {
    /// The configuration when no file was found or it did not parse.
    pub fn empty() -> (c: Config)
        ensures
            c.port is None,
            c.path is None,
    {
        Config { port: None, path: None }
    }
}

/// The effective settings of one run: command-line values override the
/// configuration file's, and the served path falls back to the current
/// directory.
#[derive(Debug, PartialEq, Eq)]
pub struct Arguments {
    pub port: Option<String>,
    pub path: String,
    pub debug: bool,
}

impl Arguments {
    /// Merges the command-line values with the configuration: each
    /// command-line value wins over the file's, and a path named by
    /// neither defaults to `.`.
    pub fn new(
        cli_port: Option<String>,
        cli_path: Option<String>,
        cli_debug: bool,
        config: Config,
    ) -> (a: Arguments)
        ensures
            a.debug == cli_debug,
            cli_port is Some ==> a.port == cli_port,
            cli_port is None ==> a.port == config.port,
            cli_path matches Some(p) ==> a.path@ == p@,
            cli_path is None ==> (config.path matches Some(p) ==> a.path@ == p@),
            cli_path is None && config.path is None ==> a.path@ == "."@,
    {
        let port = match cli_port {
            Some(p) => Some(p),
            None => config.port,
        };
        let path = match cli_path {
            Some(p) => p,
            None => match config.path {
                Some(p) => p,
                None => ".".to_owned(),
            },
        };
        Arguments { port, path, debug: cli_debug }
    }
}

/// What can go wrong around a session, each case carrying the
/// offender's description: the serial transport, text decoding, file
/// input and output, a file name that is not valid text, or a plain
/// message of this crate's own.
#[derive(Debug, PartialEq, Eq)]
pub enum UartError {
    Serial(String),
    Utf8(String),
    Io(String),
    OsString(String),
    Other(String),
}

/// Wraps a plain description as an error.
pub fn error(description: &str) -> (r: UartError)
    ensures
        r matches UartError::Other(msg) && msg@ == description@,
{
    UartError::Other(description.to_owned())
}

/// Everything a serving loop needs to start: the serial port to open,
/// the directory to serve, and whether to trace.
#[derive(Debug, PartialEq, Eq)]
pub struct Session {
    pub port_name: String,
    pub root: String,
    pub debug: bool,
}

/// Decides whether a session can start from the given settings: with a
/// port named, the serving parameters; without one, the error the user
/// sees.  Opening the port and running the loop are the caller's work.
pub fn inner_main(arguments: Arguments) -> (r: Result<Session, UartError>)
    ensures
        match arguments.port {
            Some(port_name) => r matches Ok(s) && s.port_name@ == port_name@ && s.root@
                == arguments.path@ && s.debug == arguments.debug,
            None => r matches Err(e) && e matches UartError::Other(msg) && msg@
                == "Port not specified. Either use --port argument or define in configuration."@,
        },
{
    match arguments.port {
        Some(port_name) => Ok(
            Session { port_name, root: arguments.path, debug: arguments.debug },
        ),
        None => Err(
            error("Port not specified. Either use --port argument or define in configuration."),
        ),
    }
}

} // verus!
