use fetch_bridge::{
    allocate_buffer, classify_response, encode_request, send, BackendProblem, BufferSizeError,
    CallbackSlot, Error, HeaderName, Headers, Method, Request, Response, Settings, Url,
    WireException, WireRequest, WireResponse,
};

fn settings() -> Settings {
    Settings {
        follow_redirects: true,
        include_cookies: false,
        use_caches: true,
        connect_timeout_secs: Some(30),
        read_timeout_secs: None,
    }
}

fn pair(n: &str, v: &str) -> (String, String) {
    (n.to_string(), v.to_string())
}

fn request(method: Method) -> Request {
    let mut headers = Headers::new();
    let accept = HeaderName::new("Accept".to_string()).ok().unwrap();
    headers.insert(accept, "text/plain".to_string());
    let agent = HeaderName::new("user-agent".to_string()).ok().unwrap();
    headers.insert(agent, "bridge".to_string());
    Request {
        method,
        url: Url::parse("https://example.com/a?b=c").ok().unwrap(),
        headers,
        body: Some(vec![1, 2, 3]),
    }
}

fn ok_response(status: i32) -> WireResponse {
    WireResponse {
        exception: None,
        status: Some(status),
        headers: vec![pair("Content-Type", "text/html")],
        body: Some("hello".to_string()),
        url: Some("https://example.com/final".to_string()),
    }
}

fn backend_problem(r: Result<Response, Error>) -> BackendProblem {
    match r {
        Err(Error::BackendError(p)) => p,
        _ => panic!("expected a backend error"),
    }
}

#[test]
fn header_name_is_folded_to_lower_case() {
    let h = HeaderName::new("Content-Type".to_string()).ok().unwrap();
    assert_eq!(h.as_str(), "content-type");
}

#[test]
fn header_name_rejects_space_and_empty() {
    let e = HeaderName::new("bad header".to_string()).err().unwrap();
    assert_eq!(e.name, "bad header");
    assert!(HeaderName::new(String::new()).is_err());
    assert!(HeaderName::new("x:y".to_string()).is_err());
    assert!(HeaderName::new("x-Token_1!".to_string()).is_ok());
}

#[test]
fn headers_insert_replaces_in_place() {
    let mut h = Headers::new();
    h.insert(HeaderName::new("a".to_string()).ok().unwrap(), "1".to_string());
    h.insert(HeaderName::new("b".to_string()).ok().unwrap(), "2".to_string());
    h.insert(HeaderName::new("A".to_string()).ok().unwrap(), "3".to_string());
    assert_eq!(h.len(), 2);
    assert_eq!(h.to_pairs(), vec![pair("a", "3"), pair("b", "2")]);
}

#[test]
fn url_parse_normalizes_and_rejects_relative() {
    let u = Url::parse("HTTPS://Example.COM").ok().unwrap();
    assert_eq!(u.as_str(), "https://example.com/");
    let e = Url::parse("not a url").err().unwrap();
    assert_eq!(e.input, "not a url");
    assert!(!e.reason.is_empty());
}

#[test]
fn encode_request_copies_fields_and_settings() {
    let w = encode_request(request(Method::Post), &settings());
    assert_eq!(w.url, "https://example.com/a?b=c");
    assert_eq!(w.body, Some(vec![1, 2, 3]));
    assert_eq!(w.method, 2);
    assert_eq!(w.headers, vec![pair("accept", "text/plain"), pair("user-agent", "bridge")]);
    assert!(w.follow_redirects);
    assert!(!w.include_cookies);
    assert!(w.use_caches);
    assert_eq!(w.connect_timeout_secs, 30);
    assert_eq!(w.read_timeout_secs, 0);
}

#[test]
fn encode_request_method_codes() {
    let codes: Vec<i32> = [
        Method::Get,
        Method::Head,
        Method::Post,
        Method::Put,
        Method::Delete,
        Method::Connect,
        Method::Options,
        Method::Trace,
    ]
    .iter()
    .map(|m| m.wire_code())
    .collect();
    assert_eq!(codes, vec![0, 1, 2, 3, 4, 5, 6, 7]);
}

#[test]
fn encode_request_timeout_wraps_to_32_bits() {
    let mut s = settings();
    s.connect_timeout_secs = Some(0);
    s.read_timeout_secs = Some((1u64 << 32) + 5);
    let w = encode_request(request(Method::Get), &s);
    assert_eq!(w.connect_timeout_secs, 0);
    assert_eq!(w.read_timeout_secs, 5);
}

#[test]
fn exception_wins_over_status() {
    let mut resp = ok_response(200);
    resp.exception = Some(WireException {
        name: Some("java.io.IOException".to_string()),
        msg: Some("connection reset".to_string()),
    });
    match classify_response(resp, Method::Get) {
        Err(Error::NetworkError { name, message }) => {
            assert_eq!(name.as_deref(), Some("java.io.IOException"));
            assert_eq!(message.as_deref(), Some("connection reset"));
        }
        _ => panic!("expected a network error"),
    }
}

#[test]
fn exception_without_name_or_message() {
    let mut resp = ok_response(200);
    resp.exception = Some(WireException { name: None, msg: None });
    match classify_response(resp, Method::Get) {
        Err(Error::NetworkError { name, message }) => {
            assert!(name.is_none());
            assert!(message.is_none());
        }
        _ => panic!("expected a network error"),
    }
}

#[test]
fn missing_status_is_backend_error() {
    let mut resp = ok_response(200);
    resp.status = None;
    assert!(matches!(backend_problem(classify_response(resp, Method::Get)), BackendProblem::MissingStatus));
}

#[test]
fn status_out_of_range_is_backend_error() {
    let p = backend_problem(classify_response(ok_response(70000), Method::Get));
    assert!(matches!(p, BackendProblem::IllegalStatus(70000)));
    let p = backend_problem(classify_response(ok_response(-1), Method::Get));
    assert!(matches!(p, BackendProblem::IllegalStatus(-1)));
    assert!(classify_response(ok_response(65535), Method::Get).is_ok());
    assert!(classify_response(ok_response(0), Method::Get).is_ok());
}

#[test]
fn illegal_header_name_is_named() {
    let mut resp = ok_response(200);
    resp.headers = vec![pair("good", "1"), pair("bad\u{1}name", "2"), pair("also bad", "3")];
    match backend_problem(classify_response(resp, Method::Get)) {
        BackendProblem::IllegalHeaderName(n) => assert_eq!(n, "bad\u{1}name"),
        _ => panic!("expected an illegal header name"),
    }
}

#[test]
fn missing_url_is_backend_error() {
    let mut resp = ok_response(200);
    resp.url = None;
    assert!(matches!(backend_problem(classify_response(resp, Method::Get)), BackendProblem::MissingUrl));
}

#[test]
fn illegal_url_is_backend_error() {
    let mut resp = ok_response(200);
    resp.url = Some("::nope".to_string());
    match backend_problem(classify_response(resp, Method::Get)) {
        BackendProblem::IllegalUrl { url, reason } => {
            assert_eq!(url, "::nope");
            assert!(!reason.is_empty());
        }
        _ => panic!("expected an illegal URL"),
    }
}

#[test]
fn valid_response_is_accepted() {
    let mut resp = ok_response(404);
    resp.headers = vec![pair("X-One", "1"), pair("x-two", "2"), pair("x-one", "3")];
    resp.body = None;
    let r = classify_response(resp, Method::Head).ok().unwrap();
    assert_eq!(r.status, 404);
    assert_eq!(r.request_method, Method::Head);
    assert_eq!(r.url.as_str(), "https://example.com/final");
    assert_eq!(r.headers.to_pairs(), vec![pair("x-one", "3"), pair("x-two", "2")]);
    assert_eq!(r.body_text, "");
}

#[test]
fn send_before_initialize_is_not_initialized() {
    let slot = CallbackSlot::new();
    assert!(slot.get().is_none());
    let r = send(request(Method::Get), &settings(), &slot, |_c: usize, _w: WireRequest| -> WireResponse {
        panic!("the callback must not run")
    });
    assert!(matches!(r, Err(Error::BackendNotInitialized)));
}

#[test]
fn second_registration_is_refused() {
    let mut slot = CallbackSlot::new();
    assert!(slot.register(11).is_ok());
    let e = slot.register(22).err().unwrap();
    assert_eq!(e.current, 11);
    assert_eq!(slot.get(), Some(11));
}

fn echo(status: i32) -> impl FnOnce(usize, WireRequest) -> WireResponse {
    move |_c: usize, w: WireRequest| WireResponse {
        exception: None,
        status: Some(status),
        headers: w.headers,
        body: w.body.map(|b| String::from_utf8(b).unwrap()),
        url: Some(w.url),
    }
}

#[test]
fn echo_round_trip() {
    let mut slot = CallbackSlot::new();
    slot.register(1).ok().unwrap();
    let mut req = request(Method::Put);
    req.body = Some(b"payload".to_vec());
    let r = send(req, &settings(), &slot, echo(201)).ok().unwrap();
    assert_eq!(r.request_method, Method::Put);
    assert_eq!(r.url.as_str(), "https://example.com/a?b=c");
    assert_eq!(r.status, 201);
    assert_eq!(r.body_text, "payload");
    assert_eq!(r.headers.to_pairs(), vec![pair("accept", "text/plain"), pair("user-agent", "bridge")]);
}

#[test]
fn send_hands_the_callback_and_encoded_request() {
    let mut slot = CallbackSlot::new();
    slot.register(77).ok().unwrap();
    let r = send(request(Method::Delete), &settings(), &slot, |c: usize, w: WireRequest| {
        assert_eq!(c, 77);
        assert_eq!(w.method, 4);
        assert_eq!(w.connect_timeout_secs, 30);
        ok_response(200)
    });
    assert_eq!(r.ok().unwrap().request_method, Method::Delete);
}

#[test]
fn independent_dispatches_do_not_mix() {
    let mut slot = CallbackSlot::new();
    slot.register(5).ok().unwrap();
    let a = send(request(Method::Get), &settings(), &slot, echo(200));
    let b = send(request(Method::Post), &settings(), &slot, |_c: usize, _w: WireRequest| {
        let mut resp = ok_response(200);
        resp.exception = Some(WireException { name: Some("E".to_string()), msg: None });
        resp
    });
    let a = a.ok().unwrap();
    assert_eq!(a.status, 200);
    assert_eq!(a.request_method, Method::Get);
    assert!(matches!(b, Err(Error::NetworkError { .. })));
}

#[test]
fn allocate_buffer_rejects_non_positive() {
    assert!(matches!(allocate_buffer(0), Err(BufferSizeError::NotPositive(0))));
    assert!(matches!(allocate_buffer(-1), Err(BufferSizeError::NotPositive(-1))));
    assert!(matches!(allocate_buffer(i64::MAX), Err(BufferSizeError::TooLarge(_))));
}

#[test]
fn allocate_buffer_has_exact_size() {
    let b = allocate_buffer(128).ok().unwrap();
    assert_eq!(b.as_slice().len(), 128);
    assert!(b.as_slice().iter().all(|x| *x == 0));
    b.destroy();
}
