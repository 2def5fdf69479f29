//! Socket endpoint discovery and the wire protocol: rendering a request
//! as HTTP/1.1 text, and framing, parsing and decoding the raw response.
//!
//! The actual I/O (probing the filesystem, enumerating user accounts,
//! connecting, writing, reading) lives outside the library; these
//! functions take the plain values that I/O produced and are verified
//! against them.

use vstd::prelude::*;

use crate::podman::request::{PodmanRequest, PodmanResponse, ResponseError, RestMethod};
use vstd::slice::{slice_subrange, slice_to_vec};
use vstd::string::StringExecFns;

verus! {

/// The fixed API version prefix every request is addressed under.
pub open spec fn spec_api_version() -> Seq<char> {
    "v5.0.0"@
}

fn api_version() -> (r: &'static str)
    ensures
        r@ == spec_api_version(),
{
    "v5.0.0"
}

/// The closed set of failure kinds of the protocol client, spanning
/// socket discovery, connection, transport I/O, HTTP parsing and body
/// decoding. `ApiError` alone is a recoverable, expected outcome.
#[derive(Debug)]
pub enum PodmanSockErr {
    /// Neither the host-wide nor any per-user control socket exists.
    SocketNotFound,
    /// An OS-level connect failure, carrying the rendered cause.
    ConnectFailed(String),
    /// A write or read failure after a successful connect, carrying the
    /// rendered cause; the connection is unusable afterwards.
    TransportIoFailed(String),
    /// The response bytes could not be parsed as HTTP, or hold no
    /// header/body boundary.
    MalformedResponse,
    /// The response body failed to decode under the expected schema.
    BodyDecodeFailed,
    /// A well-formed non-success response whose body decoded into the
    /// engine's error payload.
    ApiError(ResponseError),
}

// ------------------------------------------------------------------
// Socket endpoint discovery
// ------------------------------------------------------------------

/// A resolved control socket endpoint: the host-wide socket, or the
/// per-user socket of the numeric user id.
#[derive(Clone, Copy, PartialEq, Eq, Structural, Debug)]
pub enum PodmanSockFileHandle {
    Host,
    User(u32),
}

/// One decimal digit as a character.
pub open spec fn spec_digit(d: nat) -> char {
    if d == 0 {
        '0'
    } else if d == 1 {
        '1'
    } else if d == 2 {
        '2'
    } else if d == 3 {
        '3'
    } else if d == 4 {
        '4'
    } else if d == 5 {
        '5'
    } else if d == 6 {
        '6'
    } else if d == 7 {
        '7'
    } else if d == 8 {
        '8'
    } else {
        '9'
    }
}

/// The decimal rendering of a number, most significant digit first.
pub open spec fn spec_dec(n: nat) -> Seq<char>
    decreases n,
{
    if n < 10 {
        seq![spec_digit(n)]
    } else {
        spec_dec(n / 10) + seq![spec_digit(n % 10)]
    }
}

fn digit_str(d: u32) -> (r: &'static str)
    requires
        d < 10,
    ensures
        r@ == seq![spec_digit(d as nat)],
{
    proof {
        reveal_strlit("0");
        reveal_strlit("1");
        reveal_strlit("2");
        reveal_strlit("3");
        reveal_strlit("4");
        reveal_strlit("5");
        reveal_strlit("6");
        reveal_strlit("7");
        reveal_strlit("8");
        reveal_strlit("9");
    }
    let r: &'static str = match d {
        0 => "0",
        1 => "1",
        2 => "2",
        3 => "3",
        4 => "4",
        5 => "5",
        6 => "6",
        7 => "7",
        8 => "8",
        _ => "9",
    };
    proof {
        assert(r@ =~= seq![spec_digit(d as nat)]);
    }
    r
}

/// Renders a number in decimal, as the socket paths embed user ids.
pub fn u32_to_dec(n: u32) -> (r: String)
    ensures
        r@ == spec_dec(n as nat),
    decreases n,
{
    if n < 10 {
        let r = String::from_str(digit_str(n));
        r
    } else {
        let mut r = u32_to_dec(n / 10);
        r.append(digit_str(n % 10));
        proof {
            assert(r@ =~= spec_dec(n as nat));
        }
        r
    }
}

impl PodmanSockFileHandle {
    /// The filesystem path of this endpoint: the fixed host-wide path,
    /// or the per-user path holding the decimal user id.
    pub open spec fn spec_path(self) -> Seq<char> {
        match self {
            PodmanSockFileHandle::Host => "/var/run/podman/podman.sock"@,
            PodmanSockFileHandle::User(uid) => "/var/run/user/"@ + spec_dec(uid as nat)
                + "/podman/podman.sock"@,
        }
    }

    /// Renders the endpoint's filesystem path.
    pub fn path(&self) -> (r: String)
        ensures
            r@ == self.spec_path(),
    {
        match self {
            PodmanSockFileHandle::Host => String::from_str("/var/run/podman/podman.sock"),
            PodmanSockFileHandle::User(uid) => {
                let mut r = String::from_str("/var/run/user/");
                let dec = u32_to_dec(*uid);
                r.append(dec.as_str());
                r.append("/podman/podman.sock");
                proof {
                    assert(r@ =~= self.spec_path());
                }
                r
            },
        }
    }

    /// The user id of the first enumerated user that owns a socket.
    pub open spec fn spec_first_user(users: Seq<(u32, bool)>) -> Option<u32>
        decreases users.len(),
    {
        if users.len() == 0 {
            None
        } else if users[0].1 {
            Some(users[0].0)
        } else {
            Self::spec_first_user(users.drop_first())
        }
    }

    /// The endpoint discovery chooses: the host-wide socket whenever it
    /// exists, else the first enumerated user owning one, else nothing.
    pub open spec fn spec_locate(host_exists: bool, users: Seq<(u32, bool)>) -> Option<
        PodmanSockFileHandle,
    > {
        if host_exists {
            Some(PodmanSockFileHandle::Host)
        } else {
            match Self::spec_first_user(users) {
                Some(uid) => Some(PodmanSockFileHandle::User(uid)),
                None => None,
            }
        }
    }

    /// Chooses the control socket endpoint from what the filesystem
    /// probes found: `host_exists` says whether the host-wide socket
    /// path exists, and `users` lists each enumerated user id with
    /// whether that user's socket path exists, in enumeration order.
    ///
    /// The host-wide socket always wins over any per-user one; with no
    /// socket anywhere the result is absence, never an error.
    pub fn get(host_exists: bool, users: &Vec<(u32, bool)>) -> (r: Option<PodmanSockFileHandle>)
        ensures
            r == Self::spec_locate(host_exists, users@),
            host_exists ==> r == Some(PodmanSockFileHandle::Host),
            !host_exists && (forall|j: int| 0 <= j < users@.len() ==> !users@[j].1) ==> r is None,
    {
        if host_exists {
            return Some(PodmanSockFileHandle::Host);
        }
        let n = users.len();
        let mut i: usize = 0;
        proof {
            assert(users@.skip(0) =~= users@);
        }
        while i < n
            invariant
                !host_exists,
                n == users@.len(),
                0 <= i <= n,
                forall|k: int| 0 <= k < i ==> !users@[k].1,
                Self::spec_first_user(users@) == Self::spec_first_user(users@.skip(i as int)),
            decreases n - i,
        {
            let (uid, has_sock) = users[i];
            if has_sock {
                proof {
                    assert(users@.skip(i as int).len() > 0);
                    assert(users@.skip(i as int)[0] == users@[i as int]);
                    assert(Self::spec_first_user(users@.skip(i as int)) == Some(uid));
                }
                return Some(PodmanSockFileHandle::User(uid));
            }
            proof {
                assert(users@.skip(i as int).drop_first() =~= users@.skip(i as int + 1));
            }
            i = i + 1;
        }
        proof {
            assert(users@.skip(n as int) =~= Seq::<(u32, bool)>::empty());
        }
        None
    }
}

// ------------------------------------------------------------------
// Wire request rendering
// ------------------------------------------------------------------

/// The full wire text of one request: the request line addressed under
/// the fixed API version prefix, a lone Host header, no body.
pub open spec fn spec_wire_request(method: RestMethod, path: Seq<char>) -> Seq<char> {
    method.spec_str() + " /"@ + spec_api_version() + "/libpod"@ + path
        + " HTTP/1.1\r\nHost: localhost\r\n\r\n"@
}

/// Renders the wire text of the given request contract.
pub fn render_wire_request<R: PodmanRequest>(request: &R) -> (r: String)
    ensures
        r@ == spec_wire_request(R::spec_method(), request.spec_path()),
{
    let method = R::request_method();
    let mut r = String::from_str(method.as_str());
    r.append(" /");
    r.append(api_version());
    r.append("/libpod");
    let path = request.get_request();
    r.append(path.as_str());
    r.append(" HTTP/1.1\r\nHost: localhost\r\n\r\n");
    proof {
        assert(r@ =~= spec_wire_request(R::spec_method(), request.spec_path()));
    }
    r
}

// ------------------------------------------------------------------
// Response framing
// ------------------------------------------------------------------

/// Carriage return, as a byte.
pub const CR: u8 = 13;

/// Line feed, as a byte.
pub const LF: u8 = 10;

/// Whether the CRLF CRLF header/body boundary stands at index `i`.
pub open spec fn is_boundary_at(b: Seq<u8>, i: int) -> bool {
    &&& 0 <= i
    &&& i + 4 <= b.len()
    &&& b[i] == CR
    &&& b[i + 1] == LF
    &&& b[i + 2] == CR
    &&& b[i + 3] == LF
}

/// Whether the byte stream holds a header/body boundary anywhere.
pub open spec fn has_boundary(b: Seq<u8>) -> bool {
    exists|i: int| is_boundary_at(b, i)
}

/// Whether `i` is the first header/body boundary of the stream.
pub open spec fn is_first_boundary(b: Seq<u8>, i: int) -> bool {
    is_boundary_at(b, i) && forall|j: int| 0 <= j < i ==> !is_boundary_at(b, j)
}

/// The index of the first header/body boundary (meaningful only when
/// one exists).
pub open spec fn first_boundary(b: Seq<u8>) -> int {
    choose|i: int| is_first_boundary(b, i)
}

/// The response body: everything past the first header/body boundary.
pub open spec fn spec_body(b: Seq<u8>) -> Seq<u8> {
    b.subrange(first_boundary(b) + 4, b.len() as int)
}

proof fn lemma_first_boundary_unique(b: Seq<u8>, i: int, j: int)
    requires
        is_first_boundary(b, i),
        is_first_boundary(b, j),
    ensures
        i == j,
{
    if i < j {
        assert(!is_boundary_at(b, i));
    }
    if j < i {
        assert(!is_boundary_at(b, j));
    }
}

/// Finds the first header/body boundary of the byte stream, if any.
fn find_boundary(bytes: &Vec<u8>) -> (r: Option<usize>)
    ensures
        match r {
            Some(i) => is_first_boundary(bytes@, i as int),
            None => !has_boundary(bytes@),
        },
{
    let n = bytes.len();
    if n < 4 {
        return None;
    }
    let mut i: usize = 0;
    while i <= n - 4
        invariant
            n == bytes@.len(),
            4 <= n,
            0 <= i <= n,
            forall|j: int| 0 <= j < i ==> !is_boundary_at(bytes@, j),
        decreases n - i,
    {
        if bytes[i] == CR && bytes[i + 1] == LF && bytes[i + 2] == CR && bytes[i + 3] == LF {
            return Some(i);
        }
        i = i + 1;
    }
    None
}

// ------------------------------------------------------------------
// HTTP status line and body decoding (through outside crates)
// ------------------------------------------------------------------

/// The status code the HTTP parser extracts from a raw response, or
/// nothing when the bytes do not parse as a response with a status
/// line. A function of the bytes alone.
pub uninterp spec fn http_status_of(b: Seq<u8>) -> Option<u16>;

/// Relies on httparse::Response::parse (with Response::new and
/// EMPTY_HEADER, sixteen header slots): the extracted status code
/// depends on the input bytes alone, and is parsed from exactly three
/// ASCII digits, so it never exceeds 999. A parse error and a missing
/// status line both yield nothing.
#[verifier::external_body]
fn read_status(bytes: &[u8]) -> (r: Option<u16>)
    ensures
        r == http_status_of(bytes@),
        r matches Some(c) ==> c <= 999,
{
    let mut headers = [httparse::EMPTY_HEADER; 16];
    let mut response = httparse::Response::new(&mut headers);
    match response.parse(bytes) {
        Ok(_) => response.code,
        Err(_) => None,
    }
}

/// The engine error payload decoded from a response body under the
/// schema {cause, message, response}, or nothing when the body does not
/// decode under it. A function of the bytes alone.
pub uninterp spec fn error_payload_of(b: Seq<u8>) -> Option<(Seq<char>, Seq<char>, int)>;

/// The views of decoded error payload fields, for stating what the
/// decoder returned.
pub open spec fn spec_fields_view(r: Option<(String, String, i64)>) -> Option<
    (Seq<char>, Seq<char>, int),
> {
    match r {
        Some(t) => Some((t.0@, t.1@, t.2 as int)),
        None => None,
    }
}

/// Relies on serde_json::from_slice::<Value>, Value::get, Value::as_str
/// and Value::as_i64: decoding the engine's error schema {cause,
/// message, response} from a body depends on the input bytes alone.
#[verifier::external_body]
fn decode_error_json(body: &[u8]) -> (r: Option<(String, String, i64)>)
    ensures
        spec_fields_view(r) == error_payload_of(body@),
{
    let value: serde_json::Value = serde_json::from_slice(body).ok()?;
    let cause = value.get("cause")?.as_str()?.to_string();
    let message = value.get("message")?.as_str()?.to_string();
    let response = value.get("response")?.as_i64()?;
    Some((cause, message, response))
}

// ------------------------------------------------------------------
// Putting one response together
// ------------------------------------------------------------------

/// Whether a status code signals success: the [200, 300) class.
pub open spec fn in_success_class(status: u16) -> bool {
    200 <= status < 300
}

/// What building an envelope from a status code and a body must yield:
/// a success status decodes the body under the contract's success
/// schema, any other status under the engine's error schema; either
/// decode failing is a body-decode failure, and a built envelope always
/// carries the given status with the matching side of the result.
pub open spec fn envelope_post<R: PodmanRequest>(
    status: u16,
    body: Seq<u8>,
    r: Result<PodmanResponse<R::Response>, PodmanSockErr>,
) -> bool {
    if in_success_class(status) {
        match R::spec_success_of(body) {
            Some(payload) => r matches Ok(env) && env.status_code == status && (env.response
                matches Ok(p) && p == payload),
            None => r matches Err(e) && e is BodyDecodeFailed,
        }
    } else {
        match error_payload_of(body) {
            Some(fields) => r matches Ok(env) && env.status_code == status && (env.response
                matches Err(re) && re.cause@ == fields.0 && re.message@ == fields.1 && re.response
                == fields.2),
            None => r matches Err(e) && e is BodyDecodeFailed,
        }
    }
}

/// Decodes one response body according to the status-code class, as
/// `envelope_post` states.
pub fn build_envelope<R: PodmanRequest>(status_code: u16, body: &Vec<u8>) -> (r: Result<
    PodmanResponse<R::Response>,
    PodmanSockErr,
>)
    ensures
        envelope_post::<R>(status_code, body@, r),
{
    if 200 <= status_code && status_code < 300 {
        match R::decode_success(body.as_slice()) {
            Some(payload) => Ok(PodmanResponse { status_code, response: Ok(payload) }),
            None => Err(PodmanSockErr::BodyDecodeFailed),
        }
    } else {
        match decode_error_json(body.as_slice()) {
            Some(fields) => Ok(
                PodmanResponse {
                    status_code,
                    response: Err(
                        ResponseError { cause: fields.0, message: fields.1, response: fields.2 },
                    ),
                },
            ),
            None => Err(PodmanSockErr::BodyDecodeFailed),
        }
    }
}

/// What parsing a raw response must yield: bytes without a header/body
/// boundary, or without a parsable status line, are malformed; any
/// other bytes split at the first boundary and decode as
/// `envelope_post` states.
pub open spec fn parse_response_post<R: PodmanRequest>(
    bytes: Seq<u8>,
    r: Result<PodmanResponse<R::Response>, PodmanSockErr>,
) -> bool {
    if !has_boundary(bytes) || http_status_of(bytes) is None {
        r matches Err(e) && e is MalformedResponse
    } else {
        envelope_post::<R>(http_status_of(bytes).unwrap(), spec_body(bytes), r)
    }
}

/// Parses the accumulated bytes of one round-trip as an HTTP/1.1
/// response and decodes the body by status-code class.
///
/// An envelope is returned exactly when the response is well-formed and
/// its body decodes; its result is `Ok` exactly when the status code is
/// in the success class - there is no third case.
pub fn parse_response<R: PodmanRequest>(bytes: &Vec<u8>) -> (r: Result<
    PodmanResponse<R::Response>,
    PodmanSockErr,
>)
    ensures
        parse_response_post::<R>(bytes@, r),
        r matches Ok(env) ==> (in_success_class(env.status_code) <==> env.response is Ok),
        !has_boundary(bytes@) ==> (r matches Err(e) && e is MalformedResponse),
{
    let status = read_status(bytes.as_slice());
    match find_boundary(bytes) {
        None => Err(PodmanSockErr::MalformedResponse),
        Some(i) => match status {
            None => Err(PodmanSockErr::MalformedResponse),
            Some(status_code) => {
                proof {
                    lemma_first_boundary_unique(bytes@, i as int, first_boundary(bytes@));
                }
                let n = bytes.len();
                proof {
                    assert(i as int + 4 <= bytes@.len());
                }
                let body = slice_to_vec(slice_subrange(bytes.as_slice(), i + 4, n));
                build_envelope::<R>(status_code, &body)
            },
        },
    }
}

/// Whether two round-trip outcomes are structurally identical: both the
/// same error kind, or both envelopes with equal status codes and equal
/// decoded content.
pub open spec fn structurally_identical<T>(
    r1: Result<PodmanResponse<T>, PodmanSockErr>,
    r2: Result<PodmanResponse<T>, PodmanSockErr>,
) -> bool {
    match (r1, r2) {
        (Ok(e1), Ok(e2)) => e1.status_code == e2.status_code && match (e1.response, e2.response) {
            (Ok(p1), Ok(p2)) => p1 == p2,
            (Err(x1), Err(x2)) => x1.cause@ == x2.cause@ && x1.message@ == x2.message@
                && x1.response == x2.response,
            _ => false,
        },
        (Err(e1), Err(e2)) => (e1 is MalformedResponse <==> e2 is MalformedResponse) && (e1
            is BodyDecodeFailed <==> e2 is BodyDecodeFailed),
        _ => false,
    }
}

/// Law: the decoded envelope is a function of the response bytes alone.
/// Two round-trips that receive identical byte streams - for instance
/// asking twice in a row whether a present image exists - yield
/// structurally identical outcomes.
pub proof fn lemma_parse_response_deterministic<R: PodmanRequest>(
    b1: Seq<u8>,
    b2: Seq<u8>,
    r1: Result<PodmanResponse<R::Response>, PodmanSockErr>,
    r2: Result<PodmanResponse<R::Response>, PodmanSockErr>,
)
    requires
        b1 == b2,
        parse_response_post::<R>(b1, r1),
        parse_response_post::<R>(b2, r2),
    ensures
        structurally_identical(r1, r2),
{
}

} // verus!
