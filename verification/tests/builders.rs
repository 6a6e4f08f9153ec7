use server_fn_request::request::{Body, Method, Request};
use server_fn_request::{FormData, ServerFnError};

fn header_pairs(req: &Request) -> Vec<(String, String)> {
    req.headers.iter().map(|h| (h.name.clone(), h.value.clone())).collect()
}

#[test]
fn get_builds_base_plus_path_with_query() {
    let req = Request::try_new_get(
        "http://example.com",
        "/api/run",
        "application/json",
        "text/plain",
        "a=1&b=2",
    )
    .unwrap();
    assert_eq!(req.method, Method::Get);
    assert_eq!(req.url, "http://example.com/api/run?a=1&b=2");
    assert_eq!(req.body, Body::Empty);
}

#[test]
fn get_query_is_attached_verbatim() {
    let req = Request::try_new_get(
        "http://example.com",
        "/search",
        "*/*",
        "text/plain",
        "q=already%20escaped",
    )
    .unwrap();
    assert_eq!(req.url, "http://example.com/search?q=already%20escaped");
}

#[test]
fn get_headers_hold_content_type_and_accept() {
    let req = Request::try_new_get(
        "http://example.com",
        "/api",
        "application/json",
        "application/cbor",
        "",
    )
    .unwrap();
    assert_eq!(
        header_pairs(&req),
        vec![
            ("content-type".to_string(), "application/cbor".to_string()),
            ("accept".to_string(), "application/json".to_string()),
        ]
    );
}

#[test]
fn url_is_normalized_not_echoed() {
    // The URL parser normalizes: scheme and host are lowercased and a
    // path-less authority gains a trailing slash.
    let req = Request::try_new_post(
        "HTTP://EXAMPLE.com",
        "",
        "application/json",
        "text/plain",
        String::new(),
    )
    .unwrap();
    assert_eq!(req.url, "http://example.com/");
}

#[test]
fn post_text_preserves_body_bytes() {
    let body = "hello, wörld".to_string();
    let req = Request::try_new_post(
        "http://example.com",
        "/api",
        "application/json",
        "text/plain; charset=utf-8",
        body.clone(),
    )
    .unwrap();
    assert_eq!(req.method, Method::Post);
    assert_eq!(req.url, "http://example.com/api");
    match &req.body {
        Body::Text(t) => assert_eq!(t.as_bytes(), body.as_bytes()),
        other => panic!("expected a text body, got {other:?}"),
    }
    assert_eq!(
        header_pairs(&req),
        vec![
            ("content-type".to_string(), "text/plain; charset=utf-8".to_string()),
            ("accept".to_string(), "application/json".to_string()),
        ]
    );
}

#[test]
fn post_bytes_preserves_body_bytes() {
    let payload: Vec<u8> = vec![0, 1, 2, 255, 254, 7];
    let req = Request::try_new_post_bytes(
        "http://example.com",
        "/api",
        "application/json",
        "application/octet-stream",
        &payload,
    )
    .unwrap();
    assert_eq!(req.method, Method::Post);
    match &req.body {
        Body::Bytes(b) => assert_eq!(b, &payload),
        other => panic!("expected a byte body, got {other:?}"),
    }
    assert_eq!(
        header_pairs(&req),
        vec![
            ("content-type".to_string(), "application/octet-stream".to_string()),
            ("accept".to_string(), "application/json".to_string()),
        ]
    );
}

fn sample_form() -> FormData {
    let mut form = FormData::new();
    form.push_text("field".to_string(), "value".to_string());
    form.push_blob(
        "upload".to_string(),
        "data.bin".to_string(),
        "application/octet-stream".to_string(),
        vec![9, 8, 7],
    );
    form
}

#[test]
fn multipart_uses_path_as_full_url() {
    // The base server URL is deliberately not prepended: the path must
    // already be a complete URL.
    let req = Request::try_new_multipart(
        "http://upload.example.com/files",
        "application/json",
        sample_form(),
    )
    .unwrap();
    assert_eq!(req.method, Method::Post);
    assert_eq!(req.url, "http://upload.example.com/files");
    assert_eq!(
        header_pairs(&req),
        vec![("accept".to_string(), "application/json".to_string())]
    );
    assert_eq!(req.body, Body::Multipart(sample_form()));
}

#[test]
fn form_data_sets_explicit_content_type() {
    let req = Request::try_new_post_form_data(
        "http://upload.example.com/files",
        "application/json",
        "multipart/form-data",
        sample_form(),
    )
    .unwrap();
    assert_eq!(req.method, Method::Post);
    assert_eq!(req.url, "http://upload.example.com/files");
    assert_eq!(
        header_pairs(&req),
        vec![
            ("content-type".to_string(), "multipart/form-data".to_string()),
            ("accept".to_string(), "application/json".to_string()),
        ]
    );
    assert_eq!(req.body, Body::Multipart(sample_form()));
}

#[test]
fn multipart_and_form_data_bodies_agree() {
    let a = Request::try_new_multipart(
        "http://upload.example.com/files",
        "application/json",
        sample_form(),
    )
    .unwrap();
    let b = Request::try_new_post_form_data(
        "http://upload.example.com/files",
        "application/json",
        "multipart/form-data",
        sample_form(),
    )
    .unwrap();
    assert_eq!(a.body, b.body);
    assert_eq!(a.url, b.url);
    assert_eq!(a.method, b.method);
    // They differ only in the extra content-type header.
    assert_eq!(b.headers.len(), 2);
    assert_eq!(b.headers[0].name, "content-type");
    assert_eq!(a.headers, b.headers[1..]);
}

#[test]
fn streaming_always_fails() {
    for (path, accepts, ct) in [
        ("http://example.com/stream", "application/json", "application/octet-stream"),
        ("", "", ""),
        ("not even a url", "*/*", "text/plain"),
    ] {
        let r = Request::try_new_streaming(path, accepts, ct);
        assert_eq!(r, Err(ServerFnError::StreamingUnimplemented));
    }
}

#[test]
fn invalid_base_url_is_rejected_by_url_builders() {
    let bad_base = "not a url";
    let get = Request::try_new_get(bad_base, "/api", "a", "c", "q=1");
    assert!(matches!(get, Err(ServerFnError::Request(_))));
    let post = Request::try_new_post(bad_base, "/api", "a", "c", String::new());
    assert!(matches!(post, Err(ServerFnError::Request(_))));
    let bytes = Request::try_new_post_bytes(bad_base, "/api", "a", "c", &[1]);
    assert!(matches!(bytes, Err(ServerFnError::Request(_))));
}

#[test]
fn illegal_scheme_is_rejected() {
    // A scheme must start with a letter; "1http" cannot parse.
    let get = Request::try_new_get("1http://example.com", "/api", "a", "c", "");
    assert!(matches!(get, Err(ServerFnError::Request(_))));
}

#[test]
fn multipart_builders_are_unaffected_by_an_invalid_base() {
    // The multipart builders never read the base server URL, so they
    // succeed where the base-prefixing builders fail.
    let bad_base = "not a url";
    assert!(matches!(
        Request::try_new_get(bad_base, "/api", "a", "c", ""),
        Err(ServerFnError::Request(_))
    ));
    let m = Request::try_new_multipart("http://example.com/up", "a", sample_form());
    assert!(m.is_ok());
    let f = Request::try_new_post_form_data("http://example.com/up", "a", "c", sample_form());
    assert!(f.is_ok());
}

#[test]
fn multipart_with_unparseable_path_fails() {
    // Because the path is the whole URL here, a relative path cannot parse.
    let m = Request::try_new_multipart("/relative/only", "a", sample_form());
    assert!(matches!(m, Err(ServerFnError::Request(_))));
    let f = Request::try_new_post_form_data("/relative/only", "a", "c", sample_form());
    assert!(matches!(f, Err(ServerFnError::Request(_))));
}

#[test]
fn form_data_keeps_parts_in_order() {
    let mut form = FormData::new();
    assert_eq!(form.len(), 0);
    form.push_text("one".to_string(), "1".to_string());
    form.push_text("two".to_string(), "2".to_string());
    form.push_blob(
        "three".to_string(),
        "f.bin".to_string(),
        "application/octet-stream".to_string(),
        vec![3],
    );
    assert_eq!(form.len(), 3);
    assert_eq!(form.parts[0].name, "one");
    assert_eq!(form.parts[1].name, "two");
    assert_eq!(form.parts[2].name, "three");
}

#[test]
fn parse_failure_carries_the_cause() {
    // "not a url" has no scheme, so the parser reports a relative URL
    // without a base; the builder hands that description through.
    let err = Request::try_new_get("not a url", "/api", "a", "c", "q=1").unwrap_err();
    assert_eq!(
        err,
        ServerFnError::Request("relative URL without a base".to_string())
    );
}

#[test]
fn equal_inputs_fail_with_equal_errors() {
    let get = Request::try_new_get("no scheme", "/p", "a", "c", "q").unwrap_err();
    let post = Request::try_new_post("no scheme", "/p", "a", "c", String::new()).unwrap_err();
    let bytes = Request::try_new_post_bytes("no scheme", "/p", "a", "c", &[]).unwrap_err();
    assert_eq!(get, post);
    assert_eq!(post, bytes);
}
