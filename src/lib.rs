//! Verified core of a command-line client for the Beeminder REST API:
//! credential resolution, URL construction, parsing of line-oriented
//! datapoint input and the mapping of subcommands to HTTP requests.
pub mod command;
pub mod credentials;
pub mod datapoint;
pub mod datetime;
pub mod text;
pub mod url;
