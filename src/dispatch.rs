use vstd::prelude::*;
use crate::codec::{encode_request, encodes, Method, Request, Settings, WireRequest};
use crate::headers::{
    ascii_lower, distinct_names, headers_insert, is_ascii_upper, lower_char, normal_header_name,
    pairs_view, valid_header_name, HeaderName, Headers,
};
use crate::location::{url_parse_outcome, Url};
use crate::registry::CallbackSlot;

verus! {

/// An exception that the other side reports in place of a response.
pub struct WireException {
    pub name: Option<String>,
    pub msg: Option<String>,
}

/// The flat form of a response as it comes back across the boundary.
pub struct WireResponse {
    pub exception: Option<WireException>,
    pub status: Option<i32>,
    pub headers: Vec<(String, String)>,
    pub body: Option<String>,
    pub url: Option<String>,
}

/// A response that parsed but cannot be accepted.
pub enum BackendProblem {
    MissingStatus,
    IllegalStatus(i32),
    IllegalHeaderName(String),
    MissingUrl,
    IllegalUrl { url: String, reason: String },
}

/// Why an exchange gave no response.
pub enum Error {
    /// No fetch callback has been registered.
    BackendNotInitialized,
    /// The other side reported an exception while fetching.
    NetworkError { name: Option<String>, message: Option<String> },
    /// The other side answered with a response that breaks the protocol.
    BackendError(BackendProblem),
}

/// A validated response.
pub struct Response {
    pub request_method: Method,
    pub url: Url,
    pub status: u16,
    pub headers: Headers,
    pub body_text: String,
}

/// The index of the first entry whose name is not a valid header name.
pub open spec fn first_invalid_name(s: Seq<(Seq<char>, Seq<char>)>) -> Option<int>
    decreases s.len(),
{
    if s.len() == 0 {
        None
    } else {
        match first_invalid_name(s.drop_last()) {
            Some(k) => Some(k),
            None => if valid_header_name(s.last().0) {
                None
            } else {
                Some(s.len() - 1)
            },
        }
    }
}

/// The headers that a list of valid pairs gives, inserted in order with
/// their names folded to lower case.
pub open spec fn collect_headers(s: Seq<(Seq<char>, Seq<char>)>) -> Seq<(Seq<char>, Seq<char>)>
    decreases s.len(),
{
    if s.len() == 0 {
        Seq::empty()
    } else {
        headers_insert(collect_headers(s.drop_last()), ascii_lower(s.last().0), s.last().1)
    }
}

pub open spec fn status_in_range(s: i32) -> bool {
    0 <= s <= 65535
}

/// `r` is what a request made with `method` gets from the wire response
/// `resp`. The checks come in this order: a reported exception, the status,
/// the header names, the URL.
pub open spec fn classified(resp: WireResponse, method: Method, r: Result<Response, Error>) -> bool {
    let hs = pairs_view(resp.headers@);
    match resp.exception {
        Some(e) => r == Err::<Response, Error>(Error::NetworkError { name: e.name, message: e.msg }),
        None => match resp.status {
            None => r is Err && r->Err_0 is BackendError && r->Err_0->BackendError_0 is MissingStatus,
            Some(s) => if !status_in_range(s) {
                r is Err && r->Err_0 is BackendError && r->Err_0->BackendError_0 == BackendProblem::IllegalStatus(s)
            } else {
                match first_invalid_name(hs) {
                    Some(k) => r matches Err(Error::BackendError(BackendProblem::IllegalHeaderName(n)))
                        && n@ == hs[k].0,
                    None => match resp.url {
                        None => r is Err && r->Err_0 is BackendError && r->Err_0->BackendError_0 is MissingUrl,
                        Some(u) => match url_parse_outcome(u@) {
                            Err(reason) => r matches Err(Error::BackendError(BackendProblem::IllegalUrl { url, reason: why }))
                                && url@ == u@ && why@ == reason,
                            Ok(parsed) => r matches Ok(resp2)
                                && resp2.request_method == method
                                && resp2.url@ == parsed
                                && resp2.status == s as u16
                                && resp2.headers.wf()
                                && resp2.headers@ == collect_headers(hs)
                                && resp2.body_text@ == match resp.body {
                                    Some(b) => b@,
                                    None => Seq::<char>::empty(),
                                },
                        },
                    },
                }
            },
        },
    }
}

proof fn lemma_first_invalid_prefix(s: Seq<(Seq<char>, Seq<char>)>, k: int)
    requires
        0 <= k <= s.len(),
        first_invalid_name(s.take(k)) is Some,
    ensures
        first_invalid_name(s) == first_invalid_name(s.take(k)),
    decreases s.len(),
{
    if k == s.len() {
        assert(s.take(k) =~= s);
    } else {
        assert(s.drop_last().take(k) =~= s.take(k));
        lemma_first_invalid_prefix(s.drop_last(), k);
    }
}

/// Turns a wire response into the result of a request made with `method`.
pub fn classify_response(resp: WireResponse, method: Method) -> (r: Result<Response, Error>)
    ensures
        classified(resp, method, r),
{
    let ghost hs = pairs_view(resp.headers@);
    let WireResponse { exception, status, headers, body, url } = resp;
    if let Some(e) = exception {
        return Err(Error::NetworkError { name: e.name, message: e.msg });
    }
    let s = match status {
        None => return Err(Error::BackendError(BackendProblem::MissingStatus)),
        Some(s) => s,
    };
    if s < 0 || s > 65535 {
        return Err(Error::BackendError(BackendProblem::IllegalStatus(s)));
    }
    let mut out = Headers::new();
    let n = headers.len();
    let mut i: usize = 0;
    assert(hs.take(0) =~= Seq::<(Seq<char>, Seq<char>)>::empty());
    while i < n
        invariant
            n == headers@.len(),
            hs == pairs_view(headers@),
            hs == pairs_view(resp.headers@),
            resp.exception is None,
            resp.status == Some(s),
            status_in_range(s),
            resp.url == url,
            resp.body == body,
            i <= n,
            out.wf(),
            out@ == collect_headers(hs.take(i as int)),
            first_invalid_name(hs.take(i as int)) is None,
        decreases n - i,
    {
        let ghost prefix = hs.take(i as int + 1);
        assert(prefix.drop_last() =~= hs.take(i as int));
        assert(prefix.last() == hs[i as int]);
        let name = headers[i].0.clone();
        match HeaderName::new(name) {
            Err(e) => {
                proof {
                    assert(!valid_header_name(prefix.last().0));
                    assert(first_invalid_name(prefix) == Some(i as int));
                    lemma_first_invalid_prefix(hs, i as int + 1);
                    assert(e.name@ == hs[i as int].0);
                }
                return Err(Error::BackendError(BackendProblem::IllegalHeaderName(e.name)));
            },
            Ok(h) => {
                let value = headers[i].1.clone();
                out.insert(h, value);
            },
        }
        i = i + 1;
    }
    assert(hs.take(n as int) =~= hs);
    match url {
        None => Err(Error::BackendError(BackendProblem::MissingUrl)),
        Some(u) => match Url::parse(u.as_str()) {
            Err(e) => Err(Error::BackendError(BackendProblem::IllegalUrl { url: u, reason: e.reason })),
            Ok(parsed) => {
                let body_text = match body {
                    Some(b) => b,
                    None => String::new(),
                };
                Ok(Response { request_method: method, url: parsed, status: s as u16, headers: out, body_text })
            },
        },
    }
}

/// Runs one exchange. With no callback registered it fails at once;
/// otherwise `invoke` is handed the callback and the encoded request, once,
/// and what it returns is classified.
pub fn send<F>(request: Request, settings: &Settings, slot: &CallbackSlot, invoke: F) -> (r: Result<Response, Error>)
    where
        F: FnOnce(usize, WireRequest) -> WireResponse,
    requires
        forall|c: usize, w: WireRequest| invoke.requires((c, w)),
    ensures
        slot@ is None ==> r is Err && r->Err_0 is BackendNotInitialized,
        slot@ matches Some(c) ==> exists|w: WireRequest, resp: WireResponse|
            encodes(w, request, *settings) && invoke.ensures((c, w), resp) && classified(resp, request.method, r),
{
    let method = request.method;
    let callback = match slot.get() {
        None => return Err(Error::BackendNotInitialized),
        Some(c) => c,
    };
    let ghost req = request;
    let wire = encode_request(request, settings);
    let ghost w = wire;
    let resp = invoke(callback, wire);
    let ghost resp0 = resp;
    let r = classify_response(resp, method);
    assert(encodes(w, req, *settings) && invoke.ensures((callback, w), resp0) && classified(resp0, req.method, r));
    r
}

/// A reported exception takes precedence: whatever else the response holds,
/// the result is a network error with exactly the reported name and message.
pub proof fn lemma_exception_wins(resp: WireResponse, method: Method, r: Result<Response, Error>)
    requires
        resp.exception is Some,
        classified(resp, method, r),
    ensures
        r == Err::<Response, Error>(
            Error::NetworkError { name: resp.exception->Some_0.name, message: resp.exception->Some_0.msg },
        ),
{
}

proof fn lemma_no_invalid_name(s: Seq<(Seq<char>, Seq<char>)>)
    requires
        forall|i: int| 0 <= i < s.len() ==> normal_header_name(#[trigger] s[i].0),
    ensures
        first_invalid_name(s) is None,
    decreases s.len(),
{
    if s.len() > 0 {
        lemma_no_invalid_name(s.drop_last());
        assert(normal_header_name(s[s.len() - 1].0));
    }
}

proof fn lemma_lower_normal(n: Seq<char>)
    requires
        normal_header_name(n),
    ensures
        ascii_lower(n) == n,
{
    assert forall|i: int| 0 <= i < n.len() implies #[trigger] ascii_lower(n)[i] == n[i] by {
        assert(!is_ascii_upper(n[i]));
        assert(lower_char(n[i]) == n[i]);
    }
    assert(ascii_lower(n) =~= n);
}

proof fn lemma_collect_normal(s: Seq<(Seq<char>, Seq<char>)>)
    requires
        forall|i: int| 0 <= i < s.len() ==> normal_header_name(#[trigger] s[i].0),
        distinct_names(s),
    ensures
        collect_headers(s) == s,
    decreases s.len(),
{
    if s.len() > 0 {
        let init = s.drop_last();
        let last = s.last();
        assert forall|i: int| 0 <= i < init.len() implies normal_header_name(#[trigger] init[i].0) by {
            assert(init[i] == s[i]);
        }
        assert forall|i: int, j: int| 0 <= i < j < init.len() implies #[trigger] init[i].0 != #[trigger] init[j].0 by {
            assert(init[i] == s[i] && init[j] == s[j]);
        }
        lemma_collect_normal(init);
        assert(normal_header_name(s[s.len() - 1].0));
        lemma_lower_normal(last.0);
        assert forall|i: int| 0 <= i < init.len() implies init[i].0 != last.0 by {
            assert(init[i] == s[i]);
            assert(s[i].0 != s[s.len() - 1].0);
        }
        assert(headers_insert(init, last.0, last.1) == init.push((last.0, last.1)));
        assert(init.push((last.0, last.1)) =~= s);
    }
}

/// The response that a callback echoing the wire request back would send,
/// with the given status and body.
pub open spec fn echo_response(w: WireRequest, status: i32, body: Option<String>) -> WireResponse {
    WireResponse { exception: None, status: Some(status), headers: w.headers, body, url: Some(w.url) }
}

/// Round trip: a request with well-formed headers and a URL that parses to
/// itself, encoded and echoed back, yields a response with the request's
/// method, URL and headers, and the echoed status and body.
pub proof fn lemma_echo_round_trip(
    request: Request,
    settings: Settings,
    w: WireRequest,
    status: i32,
    body: Option<String>,
    r: Result<Response, Error>,
)
    requires
        request.headers.wf(),
        url_parse_outcome(request.url@) == Ok::<Seq<char>, Seq<char>>(request.url@),
        status_in_range(status),
        encodes(w, request, settings),
        classified(echo_response(w, status, body), request.method, r),
    ensures
        r matches Ok(resp) && resp.request_method == request.method && resp.url@ == request.url@
            && resp.headers@ == request.headers@ && resp.status == status as u16
            && resp.body_text@ == match body {
                Some(b) => b@,
                None => Seq::<char>::empty(),
            },
{
    let hs = pairs_view(w.headers@);
    assert(hs == request.headers@);
    lemma_no_invalid_name(hs);
    lemma_collect_normal(hs);
}

} // verus!
