use vstd::prelude::*;
use crate::headers::{pairs_view, Headers};
use crate::location::Url;

verus! {

/// An HTTP request method.
#[derive(Clone, Copy, Debug, PartialEq, Eq, Structural)]
pub enum Method {
    Get,
    Head,
    Post,
    Put,
    Delete,
    Connect,
    Options,
    Trace,
}

/// The integer that stands for a method on the wire.
pub open spec fn method_code(m: Method) -> i32 {
    match m {
        Method::Get => 0,
        Method::Head => 1,
        Method::Post => 2,
        Method::Put => 3,
        Method::Delete => 4,
        Method::Connect => 5,
        Method::Options => 6,
        Method::Trace => 7,
    }
}

impl Method {
    pub fn wire_code(self) -> (r: i32)
        ensures
            r == method_code(self),
    {
        match self {
            Method::Get => 0,
            Method::Head => 1,
            Method::Post => 2,
            Method::Put => 3,
            Method::Delete => 4,
            Method::Connect => 5,
            Method::Options => 6,
            Method::Trace => 7,
        }
    }
}

/// The process-wide fetch settings, read when a request is encoded.
pub struct Settings {
    pub follow_redirects: bool,
    pub include_cookies: bool,
    pub use_caches: bool,
    /// Whole seconds; `None` leaves the timeout to the other side.
    pub connect_timeout_secs: Option<u64>,
    pub read_timeout_secs: Option<u64>,
}

/// A request as the caller builds it.
pub struct Request {
    pub method: Method,
    pub url: Url,
    pub headers: Headers,
    pub body: Option<Vec<u8>>,
}

/// The flat form of a request that crosses the boundary.
pub struct WireRequest {
    pub url: String,
    pub body: Option<Vec<u8>>,
    pub method: i32,
    pub headers: Vec<(String, String)>,
    pub follow_redirects: bool,
    pub include_cookies: bool,
    pub use_caches: bool,
    pub connect_timeout_secs: i32,
    pub read_timeout_secs: i32,
}

/// A timeout on the wire: its whole seconds as a 32-bit integer (the cast
/// wraps), and 0 where none is set.
pub open spec fn wire_secs(t: Option<u64>) -> i32 {
    match t {
        Some(d) => d as i32,
        None => 0,
    }
}

fn timeout_to_wire(t: Option<u64>) -> (r: i32)
    ensures
        r == wire_secs(t),
{
    match t {
        Some(d) => #[verifier::truncate] (d as i32),
        None => 0,
    }
}

/// `w` is the wire form of `request` under `settings`.
pub open spec fn encodes(w: WireRequest, request: Request, settings: Settings) -> bool {
    &&& w.url@ == request.url@
    &&& w.body == request.body
    &&& w.method == method_code(request.method)
    &&& pairs_view(w.headers@) == request.headers@
    &&& w.follow_redirects == settings.follow_redirects
    &&& w.include_cookies == settings.include_cookies
    &&& w.use_caches == settings.use_caches
    &&& w.connect_timeout_secs == wire_secs(settings.connect_timeout_secs)
    &&& w.read_timeout_secs == wire_secs(settings.read_timeout_secs)
}

/// Flattens `request` together with the settings into its wire form.
pub fn encode_request(request: Request, settings: &Settings) -> (r: WireRequest)
    ensures
        encodes(r, request, *settings),
{
    let headers = request.headers.to_pairs();
    WireRequest {
        url: request.url.into_string(),
        body: request.body,
        method: request.method.wire_code(),
        headers,
        follow_redirects: settings.follow_redirects,
        include_cookies: settings.include_cookies,
        use_caches: settings.use_caches,
        connect_timeout_secs: timeout_to_wire(settings.connect_timeout_secs),
        read_timeout_secs: timeout_to_wire(settings.read_timeout_secs),
    }
}

} // verus!
