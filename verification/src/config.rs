//! Process-wide configuration, resolved once at startup.  The surrounding
//! application hands the values the library needs (above all the signing
//! secret) to each call as plain arguments: no ambient singletons.

use vstd::prelude::*;

verus! {

/// Command line options of the surrounding server binary.
#[derive(Debug)]
pub struct Opt {
    /// The log level.
    pub log_level: String,
    /// The listen address.
    pub addr: String,
    /// The listen port.
    pub port: u16,
    /// The directory where static files are to be found.
    pub static_dir: String,
}

/// Environment-level configuration.  The signing secret is loaded once and
/// never rotated within a process lifetime.
#[derive(Debug)]
pub struct Config {
    pub db_url: String,
    pub jwt_secret: String,
    pub jwt_expires_in: String,
    pub jwt_maxage: i32,
}

} // verus!
