use vstd::prelude::*;

verus! {

/// The request methods that the server tells apart.
#[derive(Clone, Copy, PartialEq, Eq, Structural, Debug)]
pub enum Method {
    Get,
    Head,
    Options,
    Other,
}

/// A response produced by the server itself (not relayed from an origin).
#[derive(Clone, Debug)]
pub struct Reply {
    pub status: u16,
    pub content_type: Option<String>,
    pub body: Vec<u8>,
}

pub struct ReplyView {
    pub status: u16,
    pub content_type: Option<Seq<char>>,
    pub body: Seq<u8>,
}

impl View for Reply {
    type V = ReplyView;

    open spec fn view(&self) -> ReplyView {
        ReplyView {
            status: self.status,
            content_type: match self.content_type {
                Some(t) => Some(t@),
                None => None,
            },
            body: self.body@,
        }
    }
}

pub const STATUS_OK: u16 = 200;

pub const STATUS_NO_CONTENT: u16 = 204;

pub const STATUS_NOT_FOUND: u16 = 404;

/// The body of every 404 response.
pub open spec fn not_found_body() -> Seq<u8> {
    seq![78u8, 111u8, 116u8, 32u8, 70u8, 111u8, 117u8, 110u8, 100u8]
}

/// The reply for a resource that cannot be served.
pub open spec fn not_found_reply() -> ReplyView {
    ReplyView { status: STATUS_NOT_FOUND, content_type: None, body: not_found_body() }
}

/// A reply with the given status and nothing else.
pub open spec fn empty_reply(status: u16) -> ReplyView {
    ReplyView { status, content_type: None, body: Seq::empty() }
}

/// `404 Not Found` with the body `Not Found`.
pub fn not_found() -> (r: Reply)
    ensures
        r@ == not_found_reply(),
{
    let body: Vec<u8> = vec![78u8, 111u8, 116u8, 32u8, 70u8, 111u8, 117u8, 110u8, 100u8];
    let r = Reply { status: STATUS_NOT_FOUND, content_type: None, body };
    assert(r@.body =~= not_found_body());
    r
}

/// A reply with `status`, no content type and an empty body.
pub fn response_with_no_body(status: u16) -> (r: Reply)
    ensures
        r@ == empty_reply(status),
{
    let r = Reply { status, content_type: None, body: Vec::new() };
    assert(r@.body =~= Seq::<u8>::empty());
    r
}

pub open spec fn cors_header_names() -> Seq<Seq<char>> {
    seq![
        "access-control-allow-origin"@,
        "access-control-allow-methods"@,
        "access-control-allow-headers"@,
    ]
}

/// The headers set on every response: the CORS headers, all with the value
/// `*`, when CORS is enabled, and none otherwise.
pub open spec fn cors_header_list(enabled: bool) -> Seq<(Seq<char>, Seq<char>)> {
    if enabled {
        cors_header_names().map_values(|n: Seq<char>| (n, "*"@))
    } else {
        Seq::empty()
    }
}

/// The headers of a reply of the server's own: its content type, if any,
/// then the CORS headers.
pub open spec fn reply_header_list(content_type: Option<Seq<char>>, cors: bool) -> Seq<(Seq<char>, Seq<char>)> {
    match content_type {
        Some(t) => seq![("content-type"@, t)] + cors_header_list(cors),
        None => cors_header_list(cors),
    }
}

pub open spec fn header_list_view(h: Seq<(String, String)>) -> Seq<(Seq<char>, Seq<char>)> {
    h.map_values(|p: (String, String)| (p.0@, p.1@))
}

/// The CORS headers to set (overwriting earlier values) on a response.
pub fn cors_headers(enabled: bool) -> (r: Vec<(String, String)>)
    ensures
        header_list_view(r@) == cors_header_list(enabled),
{
    let mut r: Vec<(String, String)> = Vec::new();
    if enabled {
        r.push((String::from_str("access-control-allow-origin"), String::from_str("*")));
        r.push((String::from_str("access-control-allow-methods"), String::from_str("*")));
        r.push((String::from_str("access-control-allow-headers"), String::from_str("*")));
    }
    assert(header_list_view(r@) =~= cors_header_list(enabled));
    r
}

/// All headers of a reply built by the server.
pub fn response_headers(reply: &Reply, cors: bool) -> (r: Vec<(String, String)>)
    ensures
        header_list_view(r@) == reply_header_list(reply@.content_type, cors),
{
    let mut r: Vec<(String, String)> = Vec::new();
    match &reply.content_type {
        Some(t) => {
            r.push((String::from_str("content-type"), t.clone()));
        },
        None => {},
    }
    let ghost first = r@;
    let mut extra = cors_headers(cors);
    r.append(&mut extra);
    assert(header_list_view(r@) =~= reply_header_list(reply@.content_type, cors)) by {
        assert(header_list_view(r@) =~= header_list_view(first) + cors_header_list(cors));
    }
    r
}

} // verus!
