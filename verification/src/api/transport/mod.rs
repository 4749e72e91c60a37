//! Transport layer for API communication: newline-delimited message framing
//! and the endpoint names the platforms listen on.

pub mod windows;

use crate::addons::storage::first_index;
use crate::api::ApiError;
use crate::text::{is_ws, push_str};
use vstd::prelude::*;

verus! {

/// How many blank lines one read may skip before giving up.
pub const MAX_BLANK_LINES: usize = 1024;

/// Drops trailing whitespace, as `str::trim_end` does.
pub open spec fn trim_end(s: Seq<char>) -> Seq<char> {
    crate::text::trim_end(s)
}

/// The next message in `pending` and what remains after it: complete lines
/// are taken in order, blank ones skipped (at most `budget` lines in all);
/// without a complete non-blank line there is no message yet.
pub open spec fn next_message(pending: Seq<char>, budget: nat) -> (Option<Seq<char>>, Seq<char>)
    decreases budget,
{
    if budget == 0 {
        (None, pending)
    } else {
        match first_index(pending, '\n') {
            None => (None, pending),
            Some(i) => {
                let line = trim_end(pending.take(i + 1));
                let rest = pending.skip(i + 1);
                if line.len() == 0 {
                    next_message(rest, (budget - 1) as nat)
                } else {
                    (Some(line), rest)
                }
            },
        }
    }
}

/// A connection's framing state: whether it is open, and the bytes received
/// that do not yet end a line.
///
/// A transport with a read timeout returns mid-message; the partial line is
/// kept here so the next read completes it instead of misframing the stream.
pub struct BufferedConnection {
    open: bool,
    pending: String,
    outgoing: String,
}

impl BufferedConnection {
    /// Whether the connection is open.
    pub closed spec fn open_view(&self) -> bool {
        self.open
    }

    /// Text received but not yet taken as messages.
    pub closed spec fn pending_view(&self) -> Seq<char> {
        self.pending@
    }

    /// Text written but not yet sent.
    pub closed spec fn outgoing_view(&self) -> Seq<char> {
        self.outgoing@
    }

    /// Creates an open connection with nothing received or written.
    pub fn new() -> (r: Self)
        ensures
            r.open_view(),
            r.pending_view() == Seq::<char>::empty(),
            r.outgoing_view() == Seq::<char>::empty(),
    {
        BufferedConnection { open: true, pending: String::new(), outgoing: String::new() }
    }

    /// Writes one message followed by a newline; a closed connection
    /// refuses it.
    pub fn write_message(&mut self, msg: &str) -> (r: Result<(), ApiError>)
        ensures
            old(self).open_view() ==> r is Ok && final(self).outgoing_view()
                == old(self).outgoing_view() + msg@ + "\n"@,
            !old(self).open_view() ==> (r matches Err(ApiError::Transport(m)) && m@
                == "Connection closed"@) && final(self).outgoing_view() == old(
                self).outgoing_view(),
            final(self).open_view() == old(self).open_view(),
            final(self).pending_view() == old(self).pending_view(),
    {
        if !self.open {
            return Err(ApiError::Transport("Connection closed".to_owned()));
        }
        push_str(&mut self.outgoing, msg);
        push_str(&mut self.outgoing, "\n");
        Ok(())
    }

    /// Hands over the text written so far, to be sent by the transport.
    pub fn take_output(&mut self) -> (r: String)
        ensures
            r@ == old(self).outgoing_view(),
            final(self).outgoing_view() == Seq::<char>::empty(),
            final(self).open_view() == old(self).open_view(),
            final(self).pending_view() == old(self).pending_view(),
    {
        let mut out = String::new();
        std::mem::swap(&mut out, &mut self.outgoing);
        out
    }

    /// Records text read from the transport.
    pub fn push_input(&mut self, data: &str)
        ensures
            final(self).pending_view() == old(self).pending_view() + data@,
            final(self).open_view() == old(self).open_view(),
            final(self).outgoing_view() == old(self).outgoing_view(),
    {
        push_str(&mut self.pending, data);
    }

    /// Marks the connection closed (end of stream or a broken transport).
    pub fn close(&mut self)
        ensures
            !final(self).open_view(),
            final(self).pending_view() == old(self).pending_view(),
            final(self).outgoing_view() == old(self).outgoing_view(),
    {
        self.open = false;
    }

    /// Checks if the connection is still open.
    pub fn is_open(&self) -> (r: bool)
        ensures
            r == self.open_view(),
    {
        self.open
    }

    /// Removes the first complete line from the pending text, returning it
    /// without its trailing whitespace.
    fn take_pending_line(&mut self) -> (r: Option<String>)
        ensures
            match first_index(old(self).pending_view(), '\n') {
                None => r is None && final(self).pending_view() == old(self).pending_view(),
                Some(i) => r matches Some(l) && l@ == trim_end(old(self).pending_view().take(i + 1))
                    && final(self).pending_view() == old(self).pending_view().skip(i + 1),
            },
            final(self).open_view() == old(self).open_view(),
            final(self).outgoing_view() == old(self).outgoing_view(),
    {
        let p = self.pending.as_str();
        let n = p.unicode_len();
        match crate::addons::storage::find_char(p, '\n') {
            None => None,
            Some(idx) => {
                let line = p.substring_char(0, idx + 1);
                let rest = p.substring_char(idx + 1, n);
                assert(line@ =~= self.pending@.take(idx + 1));
                assert(rest@ =~= self.pending@.skip(idx + 1));
                let l = trim_end_str(line);
                self.pending = rest.to_owned();
                Some(l)
            },
        }
    }

    /// The next complete message received, if any: blank lines are skipped
    /// (at most `MAX_BLANK_LINES` of them), and a closed connection yields
    /// nothing.
    pub fn read_message(&mut self) -> (r: Option<String>)
        ensures
            !old(self).open_view() ==> r is None && final(self).pending_view() == old(self).pending_view(),
            old(self).open_view() ==> ({
                let (m, rest) = next_message(old(self).pending_view(), MAX_BLANK_LINES as nat);
                &&& final(self).pending_view() == rest
                &&& match m {
                    Some(t) => r matches Some(s) && s@ == t,
                    None => r is None,
                }
            }),
            final(self).open_view() == old(self).open_view(),
            final(self).outgoing_view() == old(self).outgoing_view(),
    {
        if !self.open {
            return None;
        }
        let mut budget: usize = MAX_BLANK_LINES;
        while budget > 0
            invariant
                budget <= MAX_BLANK_LINES,
                old(self).open_view(),
                self.open_view() == old(self).open_view(),
                self.outgoing_view() == old(self).outgoing_view(),
                next_message(self.pending_view(), budget as nat) == next_message(
                    old(self).pending_view(),
                    MAX_BLANK_LINES as nat,
                ),
            decreases budget,
        {
            match self.take_pending_line() {
                None => {
                    return None;
                },
                Some(line) => {
                    if line.as_str().unicode_len() != 0 {
                        return Some(line);
                    }
                },
            }
            budget = budget - 1;
        }
        None
    }
}

/// A message written by one end reads back at the other as itself, without
/// trailing whitespace, and leaves nothing pending: framing a message that
/// holds no newline and is not blank, then reading, gives the message.
pub proof fn lemma_written_message_reads_back(m: Seq<char>)
    requires
        !m.contains('\n'),
        trim_end(m).len() > 0,
    ensures
        next_message(m + "\n"@, MAX_BLANK_LINES as nat) == (Some(trim_end(m)), Seq::<char>::empty()),
{
    let framed = m + "\n"@;
    reveal_strlit("\n");
    assert(framed.len() == m.len() + 1);
    assert(framed[m.len() as int] == '\n');
    assert forall|j: int| 0 <= j < m.len() implies framed[j] != '\n' by {
        assert(framed[j] == m[j]);
    }
    assert(framed.contains('\n'));
    let i = choose|i: int|
        0 <= i < framed.len() && framed[i] == '\n' && forall|j: int| 0 <= j < i ==> framed[j] != '\n';
    assert(i == m.len() as int) by {
        if i < m.len() {
            assert(framed[i] == m[i]);
        }
    }
    assert(first_index(framed, '\n') == Some(m.len() as int));
    assert(framed.take(m.len() + 1int) =~= framed);
    assert(framed.drop_last() =~= m);
    assert(crate::text::is_ws('\n'));
    assert(trim_end(framed) == trim_end(m));
    assert(framed.skip(m.len() + 1int) =~= Seq::<char>::empty());
}

/// `str::trim_end`, as an owned string.
pub fn trim_end_str(s: &str) -> (r: String)
    ensures
        r@ == trim_end(s@),
{
    let n = s.unicode_len();
    let mut hi: usize = n;
    while hi > 0 && crate::text::is_whitespace(s.get_char(hi - 1))
        invariant
            n == s@.len(),
            hi <= n,
            forall|j: int| hi <= j < n ==> is_ws(#[trigger] s@[j]),
        decreases hi,
    {
        hi = hi - 1;
    }
    proof {
        crate::text::lemma_trim_end_at(s@, hi as int);
    }
    s.substring_char(0, hi).to_owned()
}

} // verus!
