//! The guard every request passes on its connection before it is
//! dispatched: the handshake is answered here, and nothing but the
//! handshake and `system.ping` reaches the application until the session
//! token has been presented.

use crate::api::auth::{attempt_spec, permits_spec, ConnectionAuth, SessionToken};
use crate::api::ApiError;
use crate::text::{concat2, concat3, has_prefix, str_eq, trim};
use vstd::prelude::*;

verus! {

/// JSON-RPC error code returned when a token is required or wrong.
pub const ERROR_UNAUTHENTICATED: i32 = -32001;

/// The reply the guard sends in place of dispatching a request.
#[derive(Debug, Clone, Copy, PartialEq, Eq, Structural)]
pub enum AuthReply {
    /// The handshake succeeded: `{"authenticated": true}`.
    Authenticated,
    /// The handshake presented the wrong token.
    InvalidToken,
    /// The method needs the handshake first.
    Required,
}

/// The text of an error reply.
pub open spec fn auth_reply_message(r: AuthReply) -> Seq<char> {
    match r {
        AuthReply::Authenticated => Seq::empty(),
        AuthReply::InvalidToken => "Invalid API token"@,
        AuthReply::Required => "Authentication required: call session.authenticate with the token from the API token file first"@,
    }
}

impl AuthReply {
    /// Whether the reply is an error.
    pub fn is_error(&self) -> (r: bool)
        ensures
            r == (*self != AuthReply::Authenticated),
    {
        match self {
            AuthReply::Authenticated => false,
            _ => true,
        }
    }

    /// The error code of an error reply.
    pub fn code(&self) -> (r: Option<i32>)
        ensures
            r == (if *self == AuthReply::Authenticated {
                None
            } else {
                Some(ERROR_UNAUTHENTICATED)
            }),
    {
        match self {
            AuthReply::Authenticated => None,
            _ => Some(ERROR_UNAUTHENTICATED),
        }
    }

    /// The text of an error reply (empty for the successful handshake).
    pub fn message(&self) -> (r: &'static str)
        ensures
            r@ == auth_reply_message(*self),
    {
        proof {
            reveal_strlit("");
            assert(""@ =~= Seq::<char>::empty());
        }
        match self {
            AuthReply::Authenticated => "",
            AuthReply::InvalidToken => "Invalid API token",
            AuthReply::Required => "Authentication required: call session.authenticate with the token from the API token file first",
        }
    }
}

/// The handshake's method name.
pub open spec fn is_handshake(method: Seq<char>) -> bool {
    method == "session.authenticate"@
}

/// The token a handshake presents: its `token` parameter when that is a
/// string, and the empty string otherwise.
pub open spec fn presented(token: Option<&str>) -> Seq<char> {
    match token {
        Some(t) => t@,
        None => Seq::empty(),
    }
}

/// Decides what happens to a request for `method` on a connection in state
/// `auth`; `token` is the request's `token` parameter, when it is a string.
///
/// The handshake is answered here: it records the token when it is the
/// session's (or when authentication is off) and says whether it was.
/// Any other method is dispatched (`None`) exactly when the connection
/// permits it; otherwise the reply says the handshake is required.
pub fn check_auth(auth: &mut ConnectionAuth, method: &str, token: Option<&str>) -> (r: Option<
    AuthReply,
>)
    ensures
        is_handshake(method@) ==> ({
            let accepted = match old(auth).expected_hex() {
                None => true,
                Some(h) => h == trim(presented(token)),
            };
            &&& r == Some(if accepted {
                AuthReply::Authenticated
            } else {
                AuthReply::InvalidToken
            })
            &&& final(auth).authenticated_view() == attempt_spec(
                old(auth).expected_hex(),
                old(auth).authenticated_view(),
                presented(token),
            )
        }),
        !is_handshake(method@) ==> {
            &&& r is None <==> permits_spec(old(auth).authenticated_view(), method@)
            &&& r is Some ==> r == Some(AuthReply::Required)
            &&& final(auth).authenticated_view() == old(auth).authenticated_view()
        },
        r is None ==> old(auth).authenticated_view() || method@ == "system.ping"@,
        final(auth).expected_hex() == old(auth).expected_hex(),
{
    if str_eq(method, "session.authenticate") {
        let supplied = match token {
            Some(t) => t,
            None => "",
        };
        proof {
            reveal_strlit("");
            assert(supplied@ =~= presented(token));
        }
        let ok = auth.authenticate(supplied);
        return Some(
            if ok {
                AuthReply::Authenticated
            } else {
                AuthReply::InvalidToken
            },
        );
    }
    if auth.permits(method) {
        None
    } else {
        Some(AuthReply::Required)
    }
}

/// Where the control API listens.
#[derive(Debug, Clone, PartialEq, Eq)]
pub enum ApiEndpoint {
    /// Platform default: named pipe on Windows, Unix socket elsewhere.
    PlatformDefault,
    /// An explicit named pipe name (Windows) or socket path (Unix).
    Local(String),
    /// A TCP address, as it displays (`127.0.0.1:7777`). Only a loopback
    /// address may be bound (`check_bind_address`), and only loopback peers
    /// are served (`check_peer`).
    Tcp(String),
}

impl ApiEndpoint {
    /// Renders the endpoint for logs and for the `system.info` reply;
    /// `platform_default` is the platform's default pipe name or socket
    /// path.
    pub fn describe(&self, platform_default: &str) -> (r: String)
        ensures
            r@ == (match *self {
                ApiEndpoint::PlatformDefault => platform_default@,
                ApiEndpoint::Local(name) => name@,
                ApiEndpoint::Tcp(addr) => "tcp://"@ + addr@,
            }),
    {
        match self {
            ApiEndpoint::PlatformDefault => platform_default.to_owned(),
            ApiEndpoint::Local(name) => name.clone(),
            ApiEndpoint::Tcp(addr) => concat2("tcp://", addr.as_str()),
        }
    }
}

/// How to start the control API.
pub struct ApiServerConfig {
    /// Where to listen.
    pub endpoint: ApiEndpoint,
    /// Token every client must present; `None` disables authentication.
    pub token: Option<SessionToken>,
    /// Where to publish the token so a local client can read it.
    pub token_path: Option<String>,
}

impl Default for ApiServerConfig {
    /// The platform's default endpoint, without a token.
    fn default() -> (r: Self)
        ensures
            r.endpoint == ApiEndpoint::PlatformDefault,
            r.token is None,
            r.token_path is None,
    {
        ApiServerConfig { endpoint: ApiEndpoint::PlatformDefault, token: None, token_path: None }
    }
}

/// The message of a token that could not be minted.
pub open spec fn mint_error(m: Seq<char>) -> bool {
    has_prefix(m, "could not mint an API token: "@)
}

impl ApiServerConfig {
    /// A configuration that mints a fresh token, to be published at
    /// `token_path`, on the platform's default endpoint.
    pub fn secure_default(token_path: String) -> (r: Result<Self, ApiError>)
        ensures
            r matches Ok(c) ==> c.endpoint == ApiEndpoint::PlatformDefault && c.token is Some
                && c.token_path == Some(token_path),
            r matches Err(e) ==> e matches ApiError::Internal(m) && mint_error(m@),
    {
        match SessionToken::generate() {
            Ok(token) => Ok(
                ApiServerConfig {
                    endpoint: ApiEndpoint::PlatformDefault,
                    token: Some(token),
                    token_path: Some(token_path),
                },
            ),
            Err(e) => {
                let text = e.message();
                let m = concat2("could not mint an API token: ", text.as_str());
                proof {
                    assert(m@.subrange(0, "could not mint an API token: "@.len() as int)
                        =~= "could not mint an API token: "@);
                }
                Err(ApiError::Internal(m))
            },
        }
    }

    /// Sets the endpoint.
    pub fn with_endpoint(self, endpoint: ApiEndpoint) -> (r: Self)
        ensures
            r.endpoint == endpoint,
            r.token == self.token,
            r.token_path == self.token_path,
    {
        let mut c = self;
        c.endpoint = endpoint;
        c
    }

    /// Returns true if this configuration leaves the endpoint open.
    pub fn is_unauthenticated(&self) -> (r: bool)
        ensures
            r == self.token is None,
    {
        self.token.is_none()
    }

    /// Why the server may not start with this configuration: a TCP endpoint
    /// without a token, which every local process could reach.
    pub fn startup_error(&self) -> (r: Option<ApiError>)
        ensures
            (self.endpoint is Tcp && self.token is None) ==> (r matches Some(ApiError::Protocol(m))
                && m@
                == "the TCP control endpoint requires a token; every local process can reach it"@),
            !(self.endpoint is Tcp && self.token is None) ==> r is None,
    {
        match (&self.endpoint, &self.token) {
            (ApiEndpoint::Tcp(_), None) => Some(
                ApiError::Protocol(
                    "the TCP control endpoint requires a token; every local process can reach it".to_owned(),
                ),
            ),
            _ => None,
        }
    }
}

/// An IP address as plain numbers: the four octets of an IPv4 address, or
/// the eight 16-bit segments of an IPv6 address.
#[derive(Debug, Clone, Copy, PartialEq, Eq)]
pub enum IpView {
    /// IPv4.
    V4([u8; 4]),
    /// IPv6.
    V6([u16; 8]),
}

/// A loopback address, as std's `IpAddr::is_loopback` defines it:
/// 127.0.0.0/8 for IPv4, and `::1` alone for IPv6.
pub open spec fn is_loopback_ip(ip: IpView) -> bool {
    match ip {
        IpView::V4(o) => o@[0] == 127,
        IpView::V6(s) => s@ == seq![0u16, 0, 0, 0, 0, 0, 0, 1],
    }
}

/// Whether `ip` is a loopback address.
pub fn ip_is_loopback(ip: &IpView) -> (r: bool)
    ensures
        r == is_loopback_ip(*ip),
{
    match ip {
        IpView::V4(o) => o[0] == 127,
        IpView::V6(s) => {
            let r = s[0] == 0 && s[1] == 0 && s[2] == 0 && s[3] == 0 && s[4] == 0 && s[5] == 0
                && s[6] == 0 && s[7] == 1;
            assert(r ==> s@ =~= seq![0u16, 0, 0, 0, 0, 0, 0, 1]);
            assert(s@ == seq![0u16, 0, 0, 0, 0, 0, 0, 1] ==> r) by {
                if s@ == seq![0u16, 0, 0, 0, 0, 0, 0, 1] {
                    assert(s@[0] == 0 && s@[7] == 1);
                }
            }
            r
        },
    }
}

/// The message refusing to bind the control API to `addr`.
pub open spec fn bind_refusal(addr: Seq<char>) -> Seq<char> {
    "refusing to bind the control API to "@ + addr + ": only loopback addresses are allowed"@
}

/// The message rejecting the client at `peer`.
pub open spec fn peer_refusal(peer: Seq<char>) -> Seq<char> {
    "rejected non-loopback client "@ + peer
}

/// The listener may bind `ip` (displayed as `addr`) only when it is a
/// loopback address, so the control API is never reachable from the
/// network.
pub fn check_bind_address(ip: IpView, addr: &str) -> (r: Result<(), ApiError>)
    ensures
        r is Ok <==> is_loopback_ip(ip),
        r matches Err(e) ==> (e matches ApiError::Protocol(m) && m@ == bind_refusal(addr@)),
{
    if ip_is_loopback(&ip) {
        Ok(())
    } else {
        Err(
            ApiError::Protocol(
                concat3(
                    "refusing to bind the control API to ",
                    addr,
                    ": only loopback addresses are allowed",
                ),
            ),
        )
    }
}

/// An accepted client at `ip` (displayed as `peer`) is served only when it
/// is a loopback address.
pub fn check_peer(ip: IpView, peer: &str) -> (r: Result<(), ApiError>)
    ensures
        r is Ok <==> is_loopback_ip(ip),
        r matches Err(e) ==> (e matches ApiError::Protocol(m) && m@ == peer_refusal(peer@)),
{
    if ip_is_loopback(&ip) {
        Ok(())
    } else {
        Err(ApiError::Protocol(concat2("rejected non-loopback client ", peer)))
    }
}

} // verus!
