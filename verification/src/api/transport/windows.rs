//! The Windows named-pipe endpoint.

use vstd::prelude::*;

verus! {

/// Default pipe name on Windows.
pub const DEFAULT_PIPE_NAME: &'static str = "\\\\.\\pipe\\ratterm-api";

/// A named-pipe server's configuration.
pub struct WindowsServer {
    pipe_name: String,
}

impl WindowsServer {
    /// Creates a pipe server on `pipe_name`, or on the default pipe.
    pub fn new(pipe_name: Option<&str>) -> (r: Self)
        ensures
            r.pipe_name_view() == (match pipe_name {
                Some(n) => n@,
                None => DEFAULT_PIPE_NAME@,
            }),
    {
        let name = match pipe_name {
            Some(n) => n,
            None => DEFAULT_PIPE_NAME,
        };
        WindowsServer { pipe_name: name.to_owned() }
    }

    /// The pipe's name.
    pub closed spec fn pipe_name_view(&self) -> Seq<char> {
        self.pipe_name@
    }

    /// Returns the pipe name.
    pub fn pipe_name(&self) -> (r: &str)
        ensures
            r@ == self.pipe_name_view(),
    {
        self.pipe_name.as_str()
    }
}

} // verus!
