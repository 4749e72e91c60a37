//! Authentication for the control API.
//!
//! Each run mints a token, writes it to a file only the user can read, and
//! requires it on the first message of every connection. Until a connection
//! has presented it, only the handshake itself and `system.ping` are allowed.

use crate::text::{ascii_lower, is_ws, trim, trim_slice, str_eq, push_char};
use vstd::prelude::*;

verus! {

/// Token length in bytes before hex encoding.
pub const TOKEN_BYTES: usize = 32;

/// Method a client calls to present its token.
pub const AUTHENTICATE_METHOD: &'static str = "session.authenticate";

/// Methods a client may call before authenticating: the handshake, and
/// `system.ping` so a client can tell "not running" from "wrong token".
pub open spec fn unauthenticated_method(m: Seq<char>) -> bool {
    m == "session.authenticate"@ || m == "system.ping"@
}

/// Decides `unauthenticated_method`.
pub fn is_unauthenticated_method(method: &str) -> (r: bool)
    ensures
        r == unauthenticated_method(method@),
{
    str_eq(method, "session.authenticate") || str_eq(method, "system.ping")
}

/// Errors raised while handling the token.
#[derive(Debug)]
pub enum AuthError {
    /// The token file could not be read or written (the I/O error's text).
    Io(String),
    /// System randomness was unavailable.
    Random(String),
    /// The token file did not contain a usable token.
    Malformed,
}

/// The text each token error displays.
pub open spec fn auth_error_text(e: AuthError) -> Seq<char> {
    match e {
        AuthError::Io(m) => "token file error: "@ + m@,
        AuthError::Random(m) => "system randomness unavailable: "@ + m@,
        AuthError::Malformed => "token file is malformed"@,
    }
}

impl AuthError {
    /// The message this error displays.
    pub fn message(&self) -> (r: String)
        ensures
            r@ == auth_error_text(*self),
    {
        match self {
            AuthError::Io(m) => crate::text::concat2("token file error: ", m.as_str()),
            AuthError::Random(m) => crate::text::concat2(
                "system randomness unavailable: ",
                m.as_str(),
            ),
            AuthError::Malformed => "token file is malformed".to_owned(),
        }
    }
}

/// An ASCII hexadecimal digit, either case.
pub open spec fn is_hex_char(c: char) -> bool {
    ('0' <= c <= '9') || ('a' <= c <= 'f') || ('A' <= c <= 'F')
}

/// A lower-case ASCII hexadecimal digit.
pub open spec fn is_lower_hex_char(c: char) -> bool {
    ('0' <= c <= '9') || ('a' <= c <= 'f')
}

/// A well-formed token: 64 lower-case hex digits.
pub open spec fn is_token_text(s: Seq<char>) -> bool {
    s.len() == 2 * TOKEN_BYTES && forall|i: int| 0 <= i < s.len() ==> is_lower_hex_char(#[trigger] s[i])
}

/// Text `from_hex` accepts: after trimming, 64 hex digits of either case.
pub open spec fn accepted_hex(s: Seq<char>) -> bool {
    trim(s).len() == 2 * TOKEN_BYTES && forall|i: int| 0 <= i < trim(s).len() ==> is_hex_char(
        #[trigger] trim(s)[i],
    )
}

/// The lower-case hex digit for `d < 16`.
pub open spec fn hex_digit(d: u8) -> char {
    if d < 10 {
        (48 + d) as char
    } else {
        (87 + d) as char
    }
}

/// Bytes written as two lower-case hex digits each, as `{:02x}` writes them.
pub open spec fn hex_encode(b: Seq<u8>) -> Seq<char>
    decreases b.len(),
{
    if b.len() == 0 {
        Seq::empty()
    } else {
        hex_encode(b.drop_last()).push(hex_digit(b.last() / 16)).push(hex_digit(b.last() % 16))
    }
}

/// A per-session API token. Compared in constant time.
pub struct SessionToken {
    hex: String,
}

/// Byte comparison whose running time does not depend on where the first
/// difference is.
pub fn constant_time_eq(a: &[u8], b: &[u8]) -> (r: bool)
    ensures
        r == (a@ == b@),
{
    if a.len() != b.len() {
        return false;
    }
    let mut diff: u8 = 0;
    let mut i: usize = 0;
    while i < a.len()
        invariant
            a@.len() == b@.len(),
            i <= a@.len(),
            (diff == 0) <==> (forall|j: int| 0 <= j < i ==> a@[j] == b@[j]),
        decreases a@.len() - i,
    {
        let x = a[i];
        let y = b[i];
        let d = diff;
        assert((d | (x ^ y)) == 0 <==> (d == 0 && x == y)) by (bit_vector);
        diff = diff | (x ^ y);
        i = i + 1;
    }
    proof {
        if diff == 0 {
            assert(a@ =~= b@);
        }
    }
    diff == 0
}

fn hex_char(d: u8) -> (c: char)
    requires
        d < 16,
    ensures
        c == hex_digit(d),
{
    if d < 10 {
        (48 + d) as char
    } else {
        (87 + d) as char
    }
}

/// Characters are equal exactly when their UTF-8 encodings are.
proof fn lemma_encoding_injective(a: Seq<char>, b: Seq<char>)
    ensures
        (vstd::utf8::encode_utf8(a) == vstd::utf8::encode_utf8(b)) == (a == b),
{
    vstd::utf8::encode_utf8_decode_utf8(a);
    vstd::utf8::encode_utf8_decode_utf8(b);
}

/// A string without whitespace at either end trims to itself.
pub proof fn lemma_trim_no_ws(s: Seq<char>)
    requires
        forall|i: int| 0 <= i < s.len() ==> !is_ws(#[trigger] s[i]),
    ensures
        trim(s) == s,
{
    if s.len() > 0 {
        assert(!is_ws(s[0]));
        assert(!is_ws(s[s.len() - 1]));
    }
}

/// `getrandom::fill`: fills the buffer with system randomness. What it
/// writes, and whether the system source answers, is chance, so nothing is
/// stated of either.
#[verifier::external_body]
fn fill_random(buf: &mut [u8; 32]) -> (r: Result<(), getrandom::Error>) {
    getrandom::fill(buf)
}

/// The text of a `getrandom::Error` (its `Display`).
#[verifier::external_body]
fn random_error_text(e: &getrandom::Error) -> String {
    e.to_string()
}

/// `getrandom::Error`, carried through opaquely.
#[verifier::external_type_specification]
#[verifier::external_body]
pub struct ExRandomError(getrandom::Error);

impl Clone for SessionToken {
    /// The same token.
    fn clone(&self) -> (r: Self)
        ensures
            r.view_hex() == self.view_hex(),
    {
        proof {
            use_type_invariant(self);
        }
        SessionToken { hex: self.hex.clone() }
    }
}

impl SessionToken {
    /// A token's text is always 64 lower-case hex digits.
    #[verifier::type_invariant]
    spec fn text_is_token(self) -> bool {
        is_token_text(self.hex@)
    }

    /// The token's hex text.
    pub closed spec fn view_hex(&self) -> Seq<char> {
        self.hex@
    }

    /// Builds the token whose text is `bytes` in lower-case hex.
    pub fn from_bytes(bytes: &[u8; 32]) -> (r: Self)
        ensures
            r.view_hex() == hex_encode(bytes@),
            is_token_text(r.view_hex()),
    {
        let mut hex = String::new();
        let mut i: usize = 0;
        while i < TOKEN_BYTES
            invariant
                bytes@.len() == TOKEN_BYTES,
                i <= TOKEN_BYTES,
                hex@ == hex_encode(bytes@.take(i as int)),
                hex@.len() == 2 * i,
                forall|k: int| 0 <= k < hex@.len() ==> is_lower_hex_char(#[trigger] hex@[k]),
            decreases TOKEN_BYTES - i,
        {
            let b = bytes[i];
            assert(bytes@.take(i + 1).drop_last() =~= bytes@.take(i as int));
            assert(bytes@.take(i + 1).last() == b);
            let ghost before = hex@;
            push_char(&mut hex, hex_char(b / 16));
            push_char(&mut hex, hex_char(b % 16));
            assert forall|k: int| 0 <= k < hex@.len() implies is_lower_hex_char(#[trigger] hex@[k]) by {
                if k < before.len() {
                    assert(hex@[k] == before[k]);
                }
            }
            i = i + 1;
        }
        assert(bytes@.take(32) =~= bytes@);
        SessionToken { hex }
    }

    /// Mints a fresh token from operating-system randomness; fails when the
    /// system random source is unavailable.
    pub fn generate() -> (r: Result<Self, AuthError>)
        ensures
            r matches Ok(t) ==> is_token_text(t.view_hex()),
            r matches Err(e) ==> e is Random,
    {
        let mut bytes = [0u8; 32];
        match fill_random(&mut bytes) {
            Ok(()) => Ok(Self::from_bytes(&bytes)),
            Err(e) => Err(AuthError::Random(random_error_text(&e))),
        }
    }

    /// Builds a token from an existing hex string: after trimming it must be
    /// 64 hex digits, which are kept in lower case.
    pub fn from_hex(hex: &str) -> (r: Result<Self, AuthError>)
        ensures
            accepted_hex(hex@) <==> r is Ok,
            r matches Ok(t) ==> t.view_hex() == trim(hex@).map_values(|c: char| ascii_lower(c))
                && is_token_text(t.view_hex()),
            r matches Err(e) ==> e is Malformed,
    {
        let trimmed = trim_slice(hex);
        let n = trimmed.unicode_len();
        if n != 2 * TOKEN_BYTES {
            return Err(AuthError::Malformed);
        }
        let mut out = String::new();
        let mut i: usize = 0;
        while i < n
            invariant
                n == trimmed@.len(),
                trimmed@ == trim(hex@),
                i <= n,
                forall|j: int| 0 <= j < i ==> is_hex_char(#[trigger] trimmed@[j]),
                out@ == trimmed@.take(i as int).map_values(|c: char| ascii_lower(c)),
                forall|k: int| 0 <= k < i ==> is_lower_hex_char(#[trigger] out@[k]),
            decreases n - i,
        {
            let c = trimmed.get_char(i);
            if !(('0' <= c && c <= '9') || ('a' <= c && c <= 'f') || ('A' <= c && c <= 'F')) {
                assert(!is_hex_char(trimmed@[i as int]));
                return Err(AuthError::Malformed);
            }
            let lower = if 'A' <= c && c <= 'Z' {
                ((c as u8) + 32) as char
            } else {
                c
            };
            let ghost before = out@;
            push_char(&mut out, lower);
            assert(out@ =~= trimmed@.take(i + 1).map_values(|c: char| ascii_lower(c)));
            assert forall|k: int| 0 <= k < i + 1 implies is_lower_hex_char(#[trigger] out@[k]) by {
                if k < i {
                    assert(out@[k] == before[k]);
                }
            }
            i = i + 1;
        }
        assert(trimmed@.take(n as int) =~= trimmed@);
        Ok(SessionToken { hex: out })
    }

    /// Returns the token as a hex string.
    pub fn as_hex(&self) -> (r: &str)
        ensures
            r@ == self.view_hex(),
            is_token_text(r@),
    {
        proof {
            use_type_invariant(self);
        }
        self.hex.as_str()
    }

    /// The token's debugging text, which never shows the token itself.
    pub fn debug_text(&self) -> (r: String)
        ensures
            r@ == "SessionToken(<redacted>)"@,
    {
        "SessionToken(<redacted>)".to_owned()
    }

    /// Compares against a candidate (trimmed) in constant time.
    pub fn matches(&self, candidate: &str) -> (r: bool)
        ensures
            r == (self.view_hex() == trim(candidate@)),
    {
        let t = trim_slice(candidate);
        let r = constant_time_eq(self.hex.as_str().as_bytes(), t.as_bytes());
        proof {
            lemma_encoding_injective(self.hex@, t@);
        }
        r
    }
}

/// A token's own text, read back, gives the same token.
pub proof fn lemma_token_text_round_trip(s: Seq<char>)
    requires
        is_token_text(s),
    ensures
        accepted_hex(s),
        trim(s) == s,
        s.map_values(|c: char| ascii_lower(c)) == s,
{
    assert forall|i: int| 0 <= i < s.len() implies !is_ws(#[trigger] s[i]) by {
        assert(is_lower_hex_char(s[i]));
    }
    lemma_trim_no_ws(s);
    assert(s.map_values(|c: char| ascii_lower(c)) =~= s);
}

/// Whether a connection in the given state may run `method`: any method
/// once authenticated, otherwise only the handshake and ping.
pub open spec fn permits_spec(authenticated: bool, method: Seq<char>) -> bool {
    authenticated || unauthenticated_method(method)
}

/// The authenticated flag after one handshake attempt with `candidate`:
/// it is set when a token is expected and the candidate, trimmed, is it,
/// and it is never cleared.
pub open spec fn attempt_spec(expected: Option<Seq<char>>, authenticated: bool, candidate: Seq<
    char,
>) -> bool {
    authenticated || (expected matches Some(h) && h == trim(candidate))
}

/// The authenticated flag after the handshake attempts `attempts`, in
/// order.
pub open spec fn after_attempts(
    expected: Option<Seq<char>>,
    authenticated: bool,
    attempts: Seq<Seq<char>>,
) -> bool
    decreases attempts.len(),
{
    if attempts.len() == 0 {
        authenticated
    } else {
        attempt_spec(
            expected,
            after_attempts(expected, authenticated, attempts.drop_last()),
            attempts.last(),
        )
    }
}

/// However many wrong tokens a client presents, a connection that requires
/// a token stays locked: it permits only the handshake and ping.
pub proof fn lemma_wrong_attempts_keep_locked(
    token: Seq<char>,
    attempts: Seq<Seq<char>>,
    method: Seq<char>,
)
    requires
        forall|i: int| 0 <= i < attempts.len() ==> trim(#[trigger] attempts[i]) != token,
    ensures
        !after_attempts(Some(token), false, attempts),
        permits_spec(after_attempts(Some(token), false, attempts), method) == unauthenticated_method(
            method,
        ),
    decreases attempts.len(),
{
    if attempts.len() > 0 {
        let prev = attempts.drop_last();
        assert forall|i: int| 0 <= i < prev.len() implies trim(#[trigger] prev[i]) != token by {
            assert(prev[i] == attempts[i]);
        }
        lemma_wrong_attempts_keep_locked(token, prev, method);
        assert(trim(attempts[attempts.len() - 1]) != token);
    }
}

/// Once a client has presented the token (at any point among its
/// attempts), the connection is unlocked and permits every method.
pub proof fn lemma_presenting_the_token_unlocks(
    token: Seq<char>,
    authenticated: bool,
    attempts: Seq<Seq<char>>,
    k: int,
    method: Seq<char>,
)
    requires
        0 <= k < attempts.len(),
        trim(attempts[k]) == token,
    ensures
        after_attempts(Some(token), authenticated, attempts),
        permits_spec(after_attempts(Some(token), authenticated, attempts), method),
    decreases attempts.len(),
{
    if k < attempts.len() - 1 {
        let prev = attempts.drop_last();
        assert(prev[k] == attempts[k]);
        lemma_presenting_the_token_unlocks(token, authenticated, prev, k, method);
    }
}

/// An unlocked connection stays unlocked whatever is presented after.
pub proof fn lemma_unlocked_stays_unlocked(
    expected: Option<Seq<char>>,
    attempts: Seq<Seq<char>>,
)
    ensures
        after_attempts(expected, true, attempts),
    decreases attempts.len(),
{
    if attempts.len() > 0 {
        lemma_unlocked_stays_unlocked(expected, attempts.drop_last());
    }
}

/// With authentication off, a connection (which starts authenticated)
/// permits every method, whatever is presented.
pub proof fn lemma_disabled_permits_everything(attempts: Seq<Seq<char>>, method: Seq<char>)
    ensures
        permits_spec(after_attempts(None, true, attempts), method),
{
    lemma_unlocked_stays_unlocked(None, attempts);
}

/// Per-connection authentication state.
pub struct ConnectionAuth {
    /// The token this session expects, or `None` when authentication is off.
    expected: Option<SessionToken>,
    /// Whether this connection has presented the token.
    authenticated: bool,
}

impl ConnectionAuth {
    /// The expected token's text, or `None` when authentication is off.
    pub closed spec fn expected_hex(&self) -> Option<Seq<char>> {
        match self.expected {
            Some(t) => Some(t.view_hex()),
            None => None,
        }
    }

    /// Whether the connection has presented the token.
    pub closed spec fn authenticated_view(&self) -> bool {
        self.authenticated
    }

    /// Creates state requiring `token`.
    pub fn requiring(token: SessionToken) -> (r: Self)
        ensures
            r.expected_hex() == Some(token.view_hex()),
            !r.authenticated_view(),
    {
        ConnectionAuth { expected: Some(token), authenticated: false }
    }

    /// Creates state that accepts everything.
    pub fn disabled() -> (r: Self)
        ensures
            r.expected_hex() is None,
            r.authenticated_view(),
    {
        ConnectionAuth { expected: None, authenticated: true }
    }

    /// Returns true if authentication is enforced.
    pub fn is_required(&self) -> (r: bool)
        ensures
            r == self.expected_hex() is Some,
    {
        self.expected.is_some()
    }

    /// Returns true once the client has presented the token.
    pub fn is_authenticated(&self) -> (r: bool)
        ensures
            r == self.authenticated_view(),
    {
        self.authenticated
    }

    /// Records a successful handshake if `candidate` matches; with
    /// authentication off every candidate is accepted.
    pub fn authenticate(&mut self, candidate: &str) -> (r: bool)
        ensures
            r == match old(self).expected_hex() {
                None => true,
                Some(h) => h == trim(candidate@),
            },
            final(self).expected_hex() == old(self).expected_hex(),
            final(self).authenticated_view() == attempt_spec(
                old(self).expected_hex(),
                old(self).authenticated_view(),
                candidate@,
            ),
    {
        match &self.expected {
            None => true,
            Some(token) => {
                if token.matches(candidate) {
                    self.authenticated = true;
                    true
                } else {
                    false
                }
            },
        }
    }

    /// Returns true if `method` may run on this connection right now: any
    /// method once authenticated, otherwise only the handshake and ping.
    pub fn permits(&self, method: &str) -> (r: bool)
        ensures
            r == permits_spec(self.authenticated_view(), method@),
    {
        self.authenticated || is_unauthenticated_method(method)
    }
}

} // verus!
