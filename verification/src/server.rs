//! The preview server, as far as it is a matter of decisions.

use vstd::prelude::*;

verus! {

/// Why the preview server stopped.
#[derive(Debug)]
pub enum ServerError {
    /// No listener could be bound to the port; the field says why.
    TcpListener(String),
}

/// The port of the preview when the configuration names none.
pub const DEFAULT_PORT: u16 = 3000;

/// The port that the preview listens on.
pub fn preview_port(configured: Option<u16>) -> (port: u16)
    ensures
        port == match configured {
            Some(given) => given,
            None => DEFAULT_PORT,
        },
{
    match configured {
        Some(given) => given,
        None => DEFAULT_PORT,
    }
}

} // verus!
