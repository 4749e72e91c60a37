//! Whether the standard streams are terminals.

use vstd::prelude::*;

verus! {

/// A standard stream.
#[derive(Debug, Clone, Copy, PartialEq, Eq, Structural)]
pub enum Stream {
    /// Standard output.
    Stdout,
    /// Standard error.
    Stderr,
    /// Standard input.
    Stdin,
}

/// `atty::is`: whether the stream is attached to a terminal. Nothing is
/// promised of the answer: it depends on how the process was started.
#[verifier::external_body]
fn stream_is_tty(stream: Stream) -> bool {
    atty::is(match stream {
        Stream::Stdout => atty::Stream::Stdout,
        Stream::Stderr => atty::Stream::Stderr,
        Stream::Stdin => atty::Stream::Stdin,
    })
}

/// Returns true if the stream is a terminal.
pub fn is(stream: Stream) -> bool {
    stream_is_tty(stream)
}

/// What `isnt` answers once the terminal answer `tty` is known: its
/// negation.
pub fn isnt_given(tty: bool) -> (r: bool)
    ensures
        r == !tty,
{
    !tty
}

/// Returns true if the stream is not a terminal: the negation of the
/// answer `is` gives, as `atty::isnt` is.
pub fn isnt(stream: Stream) -> bool {
    let tty = self::is(stream);
    isnt_given(tty)
}

} // verus!
