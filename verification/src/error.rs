//! The error taxonomy of the library.

use vstd::prelude::*;

verus! {

/// Everything that can go wrong during one command invocation.
///
/// Each variant carries a one-line description intended for the user.
#[derive(Debug)]
pub enum LopError {
    /// A base URL handed to the service at construction time was malformed.
    Config(String),
    /// A local input (a file or the clipboard) could not be read.
    Io(String),
    /// The network request failed or the server answered with an error status.
    Transport(String),
    /// The server's reply could not be understood.
    Decode(String),
}

impl LopError {
    /// The description carried by the error, whatever its variant.
    pub fn message(&self) -> (r: &String)
        ensures
            (match self {
                LopError::Config(m) => r == m,
                LopError::Io(m) => r == m,
                LopError::Transport(m) => r == m,
                LopError::Decode(m) => r == m,
            }),
    {
        match self {
            LopError::Config(m) => m,
            LopError::Io(m) => m,
            LopError::Transport(m) => m,
            LopError::Decode(m) => m,
        }
    }
}

} // verus!
