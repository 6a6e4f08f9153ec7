//! The request builders.
//!
//! Each builder turns its inputs into a transport-ready [`Request`] or a
//! [`ServerFnError`]; none retries and none produces a partial result. The
//! base server URL is passed in explicitly, so the builders are pure
//! functions of their arguments.

use vstd::prelude::*;
use vstd::slice::slice_to_vec;
use vstd::string::StringExecFns;

use crate::error::ServerFnError;
use crate::form::FormData;
use crate::form::PartView;
use crate::urlparse::{
    try_parse_url, try_parse_url_with_query, url_parse, url_parse_error, url_parse_with_query,
};

verus! {

/// HTTP method of a built request.
#[derive(Debug, Clone, Copy, PartialEq, Eq, Structural)]
pub enum Method {
    Get,
    Post,
}

/// One header of a built request.
#[derive(Debug, Clone, PartialEq, Eq)]
pub struct Header {
    pub name: String,
    pub value: String,
}

/// Mathematical image of a [`Header`].
#[verifier::ext_equal]
pub struct HeaderView {
    pub name: Seq<char>,
    pub value: Seq<char>,
}

impl View for Header {
    type V = HeaderView;

    open spec fn view(&self) -> HeaderView {
        HeaderView { name: self.name@, value: self.value@ }
    }
}

/// Body of a built request: absent, UTF-8 text, opaque bytes, or a
/// multipart form.
#[derive(Debug, Clone, PartialEq, Eq)]
pub enum Body {
    Empty,
    Text(String),
    Bytes(Vec<u8>),
    Multipart(FormData),
}

/// Mathematical image of a [`Body`].
#[verifier::ext_equal]
pub enum BodyView {
    Empty,
    Text(Seq<char>),
    Bytes(Seq<u8>),
    Multipart(Seq<PartView>),
}

impl View for Body {
    type V = BodyView;

    open spec fn view(&self) -> BodyView {
        match self {
            Body::Empty => BodyView::Empty,
            Body::Text(s) => BodyView::Text(s@),
            Body::Bytes(b) => BodyView::Bytes(b@),
            Body::Multipart(f) => BodyView::Multipart(f@),
        }
    }
}

/// A transport-ready request: method, absolute URL, headers and body.
///
/// Produced by one of the builder operations; a transport layer outside this
/// crate takes ownership of it and sends it.
#[derive(Debug, Clone, PartialEq, Eq)]
pub struct Request {
    pub method: Method,
    pub url: String,
    pub headers: Vec<Header>,
    pub body: Body,
}

/// Mathematical image of a [`Request`].
#[verifier::ext_equal]
pub struct RequestView {
    pub method: Method,
    pub url: Seq<char>,
    pub headers: Seq<HeaderView>,
    pub body: BodyView,
}

impl View for Request {
    type V = RequestView;

    open spec fn view(&self) -> RequestView {
        RequestView {
            method: self.method,
            url: self.url@,
            headers: self.headers@.map_values(|h: Header| h@),
            body: self.body@,
        }
    }
}

/// The `Content-Type` and `Accept` headers, in the order the builders
/// attach them.
pub open spec fn negotiation_headers(content_type: Seq<char>, accepts: Seq<char>) -> Seq<
    HeaderView,
> {
    seq![
        HeaderView { name: "content-type"@, value: content_type },
        HeaderView { name: "accept"@, value: accepts },
    ]
}

/// The lone `Accept` header that `try_new_multipart` attaches.
pub open spec fn accept_only_headers(accepts: Seq<char>) -> Seq<HeaderView> {
    seq![HeaderView { name: "accept"@, value: accepts }]
}

/// The request that `try_new_get` returns when `base ++ path` parses.
pub open spec fn get_ok_view(
    base: Seq<char>,
    path: Seq<char>,
    accepts: Seq<char>,
    content_type: Seq<char>,
    query: Seq<char>,
) -> RequestView {
    RequestView {
        method: Method::Get,
        url: url_parse_with_query(base + path, query),
        headers: negotiation_headers(content_type, accepts),
        body: BodyView::Empty,
    }
}

/// The request that `try_new_post` returns when `base ++ path` parses.
pub open spec fn post_text_ok_view(
    base: Seq<char>,
    path: Seq<char>,
    accepts: Seq<char>,
    content_type: Seq<char>,
    body: Seq<char>,
) -> RequestView {
    RequestView {
        method: Method::Post,
        url: url_parse(base + path)->Some_0,
        headers: negotiation_headers(content_type, accepts),
        body: BodyView::Text(body),
    }
}

/// The request that `try_new_post_bytes` returns when `base ++ path` parses.
pub open spec fn post_bytes_ok_view(
    base: Seq<char>,
    path: Seq<char>,
    accepts: Seq<char>,
    content_type: Seq<char>,
    body: Seq<u8>,
) -> RequestView {
    RequestView {
        method: Method::Post,
        url: url_parse(base + path)->Some_0,
        headers: negotiation_headers(content_type, accepts),
        body: BodyView::Bytes(body),
    }
}

/// The request that `try_new_multipart` returns when `path` parses.
pub open spec fn multipart_ok_view(
    path: Seq<char>,
    accepts: Seq<char>,
    form: Seq<PartView>,
) -> RequestView {
    RequestView {
        method: Method::Post,
        url: url_parse(path)->Some_0,
        headers: accept_only_headers(accepts),
        body: BodyView::Multipart(form),
    }
}

/// The request that `try_new_post_form_data` returns when `path` parses.
pub open spec fn form_data_ok_view(
    path: Seq<char>,
    accepts: Seq<char>,
    content_type: Seq<char>,
    form: Seq<PartView>,
) -> RequestView {
    RequestView {
        method: Method::Post,
        url: url_parse(path)->Some_0,
        headers: negotiation_headers(content_type, accepts),
        body: BodyView::Multipart(form),
    }
}

/// Builds the `Content-Type` + `Accept` header list.
fn negotiation_header_vec(content_type: &str, accepts: &str) -> (r: Vec<Header>)
    ensures
        r@.map_values(|h: Header| h@) == negotiation_headers(content_type@, accepts@),
{
    let mut headers: Vec<Header> = Vec::new();
    headers.push(
        Header { name: String::from_str("content-type"), value: String::from_str(content_type) },
    );
    headers.push(Header { name: String::from_str("accept"), value: String::from_str(accepts) });
    proof {
        assert(headers@.map_values(|h: Header| h@) =~= negotiation_headers(
            content_type@,
            accepts@,
        ));
    }
    headers
}

impl Request {
    /// build-get: the full URL is `base_url ++ path` with `query` attached as
    /// the URL's query component (not concatenated into the path); no body.
    /// The query string is passed through as the caller gave it: a caller who
    /// wants escaping must escape beforehand.
    ///
    /// The length bound keeps the rebuilt URL serialization under the `url`
    /// crate's `u32` offset cap, past which its query setter panics; twelve
    /// bytes per character is that serialization's worst-case expansion.
    pub fn try_new_get(
        base_url: &str,
        path: &str,
        accepts: &str,
        content_type: &str,
        query: &str,
    ) -> (r: Result<Request, ServerFnError>)
        requires
            12 * (base_url@.len() + path@.len() + query@.len()) + 1 < 0x1_0000_0000,
        ensures
            r is Ok <==> url_parse(base_url@ + path@) is Some,
            r is Ok ==> r->Ok_0@ == get_ok_view(base_url@, path@, accepts@, content_type@, query@),
            r is Err ==> r->Err_0 is Request && r->Err_0->Request_0@ == url_parse_error(
                base_url@ + path@,
            ),
    {
        let mut url = String::from_str(base_url);
        url.append(path);
        match try_parse_url_with_query(url.as_str(), query) {
            Ok(full) => {
                let req = Request {
                    method: Method::Get,
                    url: full,
                    headers: negotiation_header_vec(content_type, accepts),
                    body: Body::Empty,
                };
                proof {
                    assert(req@ =~~= get_ok_view(
                        base_url@,
                        path@,
                        accepts@,
                        content_type@,
                        query@,
                    ));
                }
                Ok(req)
            },
            Err(msg) => Err(ServerFnError::Request(msg)),
        }
    }

    /// build-post-text: the full URL is `base_url ++ path`; the body carries
    /// the given UTF-8 text verbatim.
    pub fn try_new_post(
        base_url: &str,
        path: &str,
        accepts: &str,
        content_type: &str,
        body: String,
    ) -> (r: Result<Request, ServerFnError>)
        ensures
            r is Ok <==> url_parse(base_url@ + path@) is Some,
            r is Ok ==> r->Ok_0@ == post_text_ok_view(
                base_url@,
                path@,
                accepts@,
                content_type@,
                body@,
            ),
            r is Err ==> r->Err_0 is Request && r->Err_0->Request_0@ == url_parse_error(
                base_url@ + path@,
            ),
    {
        let mut url = String::from_str(base_url);
        url.append(path);
        match try_parse_url(url.as_str()) {
            Ok(full) => {
                let req = Request {
                    method: Method::Post,
                    url: full,
                    headers: negotiation_header_vec(content_type, accepts),
                    body: Body::Text(body),
                };
                proof {
                    assert(req@ =~~= post_text_ok_view(
                        base_url@,
                        path@,
                        accepts@,
                        content_type@,
                        body@,
                    ));
                }
                Ok(req)
            },
            Err(msg) => Err(ServerFnError::Request(msg)),
        }
    }

    /// build-post-bytes: the full URL is `base_url ++ path`; the body carries
    /// a copy of the given bytes, unchanged.
    pub fn try_new_post_bytes(
        base_url: &str,
        path: &str,
        accepts: &str,
        content_type: &str,
        body: &[u8],
    ) -> (r: Result<Request, ServerFnError>)
        ensures
            r is Ok <==> url_parse(base_url@ + path@) is Some,
            r is Ok ==> r->Ok_0@ == post_bytes_ok_view(
                base_url@,
                path@,
                accepts@,
                content_type@,
                body@,
            ),
            r is Err ==> r->Err_0 is Request && r->Err_0->Request_0@ == url_parse_error(
                base_url@ + path@,
            ),
    {
        let mut url = String::from_str(base_url);
        url.append(path);
        match try_parse_url(url.as_str()) {
            Ok(full) => {
                let req = Request {
                    method: Method::Post,
                    url: full,
                    headers: negotiation_header_vec(content_type, accepts),
                    body: Body::Bytes(slice_to_vec(body)),
                };
                proof {
                    assert(req@ =~~= post_bytes_ok_view(
                        base_url@,
                        path@,
                        accepts@,
                        content_type@,
                        body@,
                    ));
                }
                Ok(req)
            },
            Err(msg) => Err(ServerFnError::Request(msg)),
        }
    }

    /// build-post-multipart: `path` is used as the complete URL — the base
    /// server URL is deliberately not prepended, unlike in the other
    /// builders, so callers must pass a fully qualified path. Only the
    /// `Accept` header is attached; the multipart encoding chooses its own
    /// `Content-Type`.
    pub fn try_new_multipart(path: &str, accepts: &str, body: FormData) -> (r: Result<
        Request,
        ServerFnError,
    >)
        ensures
            r is Ok <==> url_parse(path@) is Some,
            r is Ok ==> r->Ok_0@ == multipart_ok_view(path@, accepts@, body@),
            r is Err ==> r->Err_0 is Request && r->Err_0->Request_0@ == url_parse_error(path@),
    {
        match try_parse_url(path) {
            Ok(full) => {
                let mut headers: Vec<Header> = Vec::new();
                headers.push(
                    Header { name: String::from_str("accept"), value: String::from_str(accepts) },
                );
                let req = Request {
                    method: Method::Post,
                    url: full,
                    headers,
                    body: Body::Multipart(body),
                };
                proof {
                    assert(req@ =~~= multipart_ok_view(path@, accepts@, body@));
                }
                Ok(req)
            },
            Err(msg) => Err(ServerFnError::Request(msg)),
        }
    }

    /// build-post-form-data: like `try_new_multipart` (`path` is the complete
    /// URL, the base server URL is deliberately not prepended), but with an
    /// explicit `Content-Type` header beside `Accept`.
    pub fn try_new_post_form_data(
        path: &str,
        accepts: &str,
        content_type: &str,
        body: FormData,
    ) -> (r: Result<Request, ServerFnError>)
        ensures
            r is Ok <==> url_parse(path@) is Some,
            r is Ok ==> r->Ok_0@ == form_data_ok_view(path@, accepts@, content_type@, body@),
            r is Err ==> r->Err_0 is Request && r->Err_0->Request_0@ == url_parse_error(path@),
    {
        match try_parse_url(path) {
            Ok(full) => {
                let req = Request {
                    method: Method::Post,
                    url: full,
                    headers: negotiation_header_vec(content_type, accepts),
                    body: Body::Multipart(body),
                };
                proof {
                    assert(req@ =~~= form_data_ok_view(path@, accepts@, content_type@, body@));
                }
                Ok(req)
            },
            Err(msg) => Err(ServerFnError::Request(msg)),
        }
    }

    /// build-post-streaming: streaming request bodies are not implemented.
    /// Every call fails with [`ServerFnError::StreamingUnimplemented`],
    /// whatever the inputs; no request with a streamed body is ever built.
    #[allow(unused_variables)]
    pub fn try_new_streaming(path: &str, accepts: &str, content_type: &str) -> (r: Result<
        Request,
        ServerFnError,
    >)
        ensures
            r == Result::<Request, ServerFnError>::Err(ServerFnError::StreamingUnimplemented),
    {
        Err(ServerFnError::StreamingUnimplemented)
    }
}

} // verus!
