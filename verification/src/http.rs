//! The protocol surface the service presents: request routing, the
//! content-type gate, and the mapping from every internal outcome to
//! exactly one status code and body.

use vstd::prelude::*;
use crate::bytescan::starts_with;
use crate::manifest::Rejection;

verus! {

pub const STATUS_OK: u16 = 200;
pub const STATUS_BAD_REQUEST: u16 = 400;
pub const STATUS_FORBIDDEN: u16 = 403;
pub const STATUS_NOT_FOUND: u16 = 404;
pub const STATUS_UNSUPPORTED_MEDIA_TYPE: u16 = 415;
pub const STATUS_INTERNAL_ERROR: u16 = 500;
pub const STATUS_SERVICE_BUSY: u16 = 503;

/// The request methods the service distinguishes.
#[derive(Clone, Copy, Debug, PartialEq, Eq, Structural)]
pub enum ReqMethod {
    Get,
    Post,
    OtherMethod,
}

/// Where a request is routed.
#[derive(Clone, Copy, Debug, PartialEq, Eq, Structural)]
pub enum Route {
    /// `GET /`: the informational page.
    Home,
    /// `POST /remote-build`: the build pipeline.
    RemoteBuild,
    /// Anything else.
    Unmatched,
}

/// The path `/`, as bytes.
pub open spec fn root_path() -> Seq<u8> {
    seq![47u8]
}

/// The path `/remote-build`, as bytes.
pub open spec fn remote_build_path() -> Seq<u8> {
    seq![47u8, 114u8, 101u8, 109u8, 111u8, 116u8, 101u8, 45u8, 98u8, 117u8, 105u8, 108u8, 100u8]
}

/// The media-type prefix `application/json`, as bytes.
pub open spec fn json_media_type() -> Seq<u8> {
    seq![
        97u8, 112u8, 112u8, 108u8, 105u8, 99u8, 97u8, 116u8, 105u8, 111u8, 110u8, 47u8, 106u8,
        115u8, 111u8, 110u8,
    ]
}

pub open spec fn route_spec(m: ReqMethod, path: Seq<u8>) -> Route {
    if m is Get && path == root_path() {
        Route::Home
    } else if m is Post && path == remote_build_path() {
        Route::RemoteBuild
    } else {
        Route::Unmatched
    }
}

/// A byte a header value may carry and still convert to text: visible
/// ASCII, or a horizontal tab. A value holding any other byte cannot be
/// read as text by the transport, so it declares no media type at all.
pub open spec fn header_text_byte(b: u8) -> bool {
    (32 <= b && b < 127) || b == 9
}

pub open spec fn header_is_text(v: Seq<u8>) -> bool {
    forall|i: int| 0 <= i < v.len() ==> header_text_byte(#[trigger] v[i])
}

/// A header value declares a JSON media type when it converts to text and
/// begins with `application/json`; an absent header declares nothing.
pub open spec fn declares_json(ct: Option<Vec<u8>>) -> bool {
    match ct {
        Some(v) => header_is_text(v@) && starts_with(v@, json_media_type()),
        None => false,
    }
}

fn root_path_bytes() -> (v: Vec<u8>)
    ensures
        v@ == root_path(),
{
    let mut v: Vec<u8> = Vec::new();
    v.push(47);
    proof {
        assert(v@ =~= root_path());
    }
    v
}

fn remote_build_path_bytes() -> (v: Vec<u8>)
    ensures
        v@ == remote_build_path(),
{
    let mut v: Vec<u8> = Vec::new();
    v.push(47);
    v.push(114);
    v.push(101);
    v.push(109);
    v.push(111);
    v.push(116);
    v.push(101);
    v.push(45);
    v.push(98);
    v.push(117);
    v.push(105);
    v.push(108);
    v.push(100);
    proof {
        assert(v@ =~= remote_build_path());
    }
    v
}

fn json_media_type_bytes() -> (v: Vec<u8>)
    ensures
        v@ == json_media_type(),
{
    let mut v: Vec<u8> = Vec::new();
    v.push(97);
    v.push(112);
    v.push(112);
    v.push(108);
    v.push(105);
    v.push(99);
    v.push(97);
    v.push(116);
    v.push(105);
    v.push(111);
    v.push(110);
    v.push(47);
    v.push(106);
    v.push(115);
    v.push(111);
    v.push(110);
    proof {
        assert(v@ =~= json_media_type());
    }
    v
}

fn bytes_equal(a: &Vec<u8>, b: &Vec<u8>) -> (r: bool)
    ensures
        r == (a@ == b@),
{
    if a.len() != b.len() {
        return false;
    }
    let mut k: usize = 0;
    while k < a.len()
        invariant
            a@.len() == b@.len(),
            k <= a.len(),
            forall|t: int| 0 <= t < k ==> a@[t] == b@[t],
        decreases a.len() - k,
    {
        if a[k] != b[k] {
            return false;
        }
        k = k + 1;
    }
    proof {
        assert(a@ =~= b@);
    }
    true
}

/// Routes a request by method and path.
pub fn route(m: &ReqMethod, path: &Vec<u8>) -> (r: Route)
    ensures
        r == route_spec(*m, path@),
{
    match m {
        ReqMethod::Get => {
            let root = root_path_bytes();
            if bytes_equal(path, &root) {
                Route::Home
            } else {
                Route::Unmatched
            }
        },
        ReqMethod::Post => {
            let rb = remote_build_path_bytes();
            if bytes_equal(path, &rb) {
                Route::RemoteBuild
            } else {
                Route::Unmatched
            }
        },
        ReqMethod::OtherMethod => Route::Unmatched,
    }
}

fn all_header_text(v: &Vec<u8>) -> (b: bool)
    ensures
        b == header_is_text(v@),
{
    let mut k: usize = 0;
    while k < v.len()
        invariant
            k <= v.len(),
            forall|t: int| 0 <= t < k ==> header_text_byte(#[trigger] v@[t]),
        decreases v.len() - k,
    {
        let b = v[k];
        if !(32 <= b && b < 127 || b == 9) {
            proof {
                assert(!header_text_byte(v@[k as int]));
            }
            return false;
        }
        k = k + 1;
    }
    true
}

/// Whether the request's content-type header declares a JSON media type.
pub fn is_content_type_json(ct: &Option<Vec<u8>>) -> (b: bool)
    ensures
        b == declares_json(*ct),
{
    match ct {
        Some(v) => {
            if !all_header_text(v) {
                return false;
            }
            let mt = json_media_type_bytes();
            crate::bytescan::has_prefix(v, &mt)
        },
        None => false,
    }
}

/// The bodies with fixed text.
#[derive(Clone, Copy, Debug, PartialEq, Eq, Structural)]
pub enum FixedMsg {
    /// `GET /` informational page.
    Home,
    /// The content-type header is missing or not a JSON media type.
    NeedJsonContentType,
    /// The request body is not JSON.
    JsonParseError,
    /// The top-level JSON value is not an object.
    BadStructure,
    /// Some file name was refused.
    ForbiddenName,
    /// Some content value is not a string.
    BadContentValue,
    /// Any staging, filesystem or toolchain-contract failure; deliberately
    /// generic, so that no internal path or diagnostic leaks to the caller.
    InternalError,
    /// The build exceeded its wall-clock bound.
    BuildTimedOut,
    /// No build slot became free in time.
    Busy,
}

pub open spec fn fixed_text_spec(m: FixedMsg) -> Seq<char> {
    match m {
        FixedMsg::Home => "If you're here, you should read more code."@,
        FixedMsg::NeedJsonContentType => "Content-Type must be application/json"@,
        FixedMsg::JsonParseError => "Error parsing JSON"@,
        FixedMsg::BadStructure => "Invalid JSON structure"@,
        FixedMsg::ForbiddenName => "Grrrrr(ust)."@,
        FixedMsg::BadContentValue => "Invalid content type for file"@,
        FixedMsg::InternalError => "Internal Server Error"@,
        FixedMsg::BuildTimedOut => "build timed out"@,
        FixedMsg::Busy => "Service busy"@,
    }
}

/// The text a fixed body carries on the wire.
pub fn fixed_text(m: &FixedMsg) -> (s: &'static str)
    ensures
        s@ == fixed_text_spec(*m),
{
    match m {
        FixedMsg::Home => "If you're here, you should read more code.",
        FixedMsg::NeedJsonContentType => "Content-Type must be application/json",
        FixedMsg::JsonParseError => "Error parsing JSON",
        FixedMsg::BadStructure => "Invalid JSON structure",
        FixedMsg::ForbiddenName => "Grrrrr(ust).",
        FixedMsg::BadContentValue => "Invalid content type for file",
        FixedMsg::InternalError => "Internal Server Error",
        FixedMsg::BuildTimedOut => "build timed out",
        FixedMsg::Busy => "Service busy",
    }
}

/// A response body: fixed text, the build tool's own diagnostic, the
/// artifact (sent as an octet-stream attachment), or nothing.
pub enum RespBody {
    Fixed(FixedMsg),
    Diagnostic(Vec<u8>),
    Artifact(Vec<u8>),
    Empty,
}

/// One protocol response: a status code and a body.
pub struct HttpResponse {
    pub status: u16,
    pub body: RespBody,
}

pub open spec fn home_response_spec() -> HttpResponse {
    HttpResponse { status: STATUS_OK, body: RespBody::Fixed(FixedMsg::Home) }
}

/// The informational page served at the root route.
pub fn home_response() -> (r: HttpResponse)
    ensures
        r == home_response_spec(),
{
    HttpResponse { status: STATUS_OK, body: RespBody::Fixed(FixedMsg::Home) }
}

pub open spec fn not_found_response_spec() -> HttpResponse {
    HttpResponse { status: STATUS_NOT_FOUND, body: RespBody::Empty }
}

/// The empty response served on every unmatched route.
pub fn not_found_response() -> (r: HttpResponse)
    ensures
        r == not_found_response_spec(),
{
    HttpResponse { status: STATUS_NOT_FOUND, body: RespBody::Empty }
}

/// The response owed to each pre-staging rejection: a refused file name is
/// forbidden, every other malformation is a bad request.
pub open spec fn rejection_response_spec(rej: Rejection) -> HttpResponse {
    match rej {
        Rejection::MalformedPayload => HttpResponse {
            status: STATUS_BAD_REQUEST,
            body: RespBody::Fixed(FixedMsg::BadStructure),
        },
        Rejection::RejectedFilename => HttpResponse {
            status: STATUS_FORBIDDEN,
            body: RespBody::Fixed(FixedMsg::ForbiddenName),
        },
        Rejection::InvalidContentType => HttpResponse {
            status: STATUS_BAD_REQUEST,
            body: RespBody::Fixed(FixedMsg::BadContentValue),
        },
    }
}

pub fn rejection_response(rej: Rejection) -> (r: HttpResponse)
    ensures
        r == rejection_response_spec(rej),
{
    match rej {
        Rejection::MalformedPayload => HttpResponse {
            status: STATUS_BAD_REQUEST,
            body: RespBody::Fixed(FixedMsg::BadStructure),
        },
        Rejection::RejectedFilename => HttpResponse {
            status: STATUS_FORBIDDEN,
            body: RespBody::Fixed(FixedMsg::ForbiddenName),
        },
        Rejection::InvalidContentType => HttpResponse {
            status: STATUS_BAD_REQUEST,
            body: RespBody::Fixed(FixedMsg::BadContentValue),
        },
    }
}

} // verus!

