use vstd::prelude::*;

use crate::addr::Port;
use crate::http::{
    cors_header_list, empty_reply, reply_header_list, response_with_no_body, Method, Reply,
    ReplyView, STATUS_NO_CONTENT,
};
use crate::path::{strip_leading_slash, without_leading_slash};
use crate::proxy::{
    parse_proxy_list, proxy_response, proxy_target_of, rules_of, rules_view, strings_view,
    ProxyConfigError, ProxyRule, ProxyRuleView, ProxyTarget, ProxyTargetView,
};

verus! {

/// The settings every request is served with; built once, then only read.
#[derive(Clone, Debug)]
pub struct ServerConfig {
    pub root: String,
    pub cors: bool,
    pub port: Port,
    pub proxies: Vec<ProxyRule>,
}

impl ServerConfig {
    pub open spec fn wf(&self) -> bool {
        forall|i: int| 0 <= i < self.proxies@.len() ==> #[trigger] self.proxies@[i].wf()
    }

    /// A configuration whose proxy rules are read from `prefix|origin` entries.
    pub fn new(root: String, cors: bool, port: Port, proxy_entries: &Vec<String>) -> (r: Result<
        ServerConfig,
        ProxyConfigError,
    >)
        ensures
            match r {
                Ok(c) => {
                    &&& c.wf()
                    &&& c.root == root
                    &&& c.cors == cors
                    &&& c.port == port
                    &&& rules_of(strings_view(proxy_entries@)) == Ok::<
                        Seq<ProxyRuleView>,
                        Seq<char>,
                    >(rules_view(c.proxies@))
                },
                Err(e) => rules_of(strings_view(proxy_entries@)) == Err::<
                    Seq<ProxyRuleView>,
                    Seq<char>,
                >(e.entry@),
            },
    {
        match parse_proxy_list(proxy_entries) {
            Ok(proxies) => Ok(ServerConfig { root, cors, port, proxies }),
            Err(e) => Err(e),
        }
    }
}

/// How a request is handled.
#[derive(Debug)]
pub enum Route {
    /// Answered at once.
    Reply(Reply),
    /// Relayed to an origin.
    Forward(ProxyTarget),
    /// Served from the root directory; holds the request path without its leading `/`.
    Static(String),
}

pub enum RouteView {
    Reply(ReplyView),
    Forward(ProxyTargetView),
    Static(Seq<char>),
}

impl View for Route {
    type V = RouteView;

    open spec fn view(&self) -> RouteView {
        match self {
            Route::Reply(r) => RouteView::Reply(r@),
            Route::Forward(t) => RouteView::Forward(t@),
            Route::Static(p) => RouteView::Static(p@),
        }
    }
}

/// `OPTIONS` is answered with `204 No Content`; otherwise the first matching
/// proxy rule forwards the request; otherwise a static file is served.
pub open spec fn route_of(rules: Seq<ProxyRuleView>, method: Method, path: Seq<char>) -> RouteView {
    if method == Method::Options {
        RouteView::Reply(empty_reply(STATUS_NO_CONTENT))
    } else {
        match proxy_target_of(rules, path) {
            Some(t) => RouteView::Forward(t),
            None => RouteView::Static(without_leading_slash(path)),
        }
    }
}

/// Decides how a request with `method` for the URL path `path` is handled.
pub fn route(config: &ServerConfig, method: Method, path: &str) -> (r: Route)
    ensures
        r@ == route_of(rules_view(config.proxies@), method, path@),
{
    if method == Method::Options {
        return Route::Reply(response_with_no_body(STATUS_NO_CONTENT));
    }
    match proxy_response(path, &config.proxies) {
        Some(t) => Route::Forward(t),
        None => Route::Static(String::from_str(strip_leading_slash(path))),
    }
}

/// `OPTIONS` to any path, under any proxy rules, is answered with an empty
/// `204 No Content`.
pub proof fn lemma_options_no_content(rules: Seq<ProxyRuleView>, path: Seq<char>)
    ensures
        route_of(rules, Method::Options, path) == RouteView::Reply(
            ReplyView { status: 204, content_type: None, body: Seq::empty() },
        ),
{
}

/// A request whose path begins with a rule's prefix, and with no earlier rule
/// matching, goes to that rule's origin with its full path; a request that
/// no rule matches is served from the root.
pub proof fn lemma_proxy_precedence(rules: Seq<ProxyRuleView>, method: Method, path: Seq<char>, i: int)
    requires
        method != Method::Options,
        0 <= i < rules.len(),
    ensures
        crate::proxy::first_match(rules, path) == Some(i) ==> route_of(rules, method, path)
            == RouteView::Forward(crate::proxy::target_of(rules[i], path)),
        crate::proxy::first_match(rules, path).is_none() ==> route_of(rules, method, path)
            == RouteView::Static(without_leading_slash(path)),
{
}

/// The name of the header that allows every origin.
pub open spec fn allow_origin() -> Seq<char> {
    "access-control-allow-origin"@
}

/// With CORS enabled, every response carries `Access-Control-Allow-Origin: *`:
/// the server's own replies (whatever their content type) and relayed ones;
/// with CORS disabled, neither carries that header at all.
pub proof fn lemma_cors_on_every_response(content_type: Option<Seq<char>>, cors: bool)
    ensures
        cors ==> reply_header_list(content_type, cors).contains((allow_origin(), "*"@)),
        cors ==> cors_header_list(cors).contains((allow_origin(), "*"@)),
        !cors ==> forall|i: int|
            0 <= i < reply_header_list(content_type, cors).len()
                ==> #[trigger] reply_header_list(content_type, cors)[i].0 != allow_origin(),
        !cors ==> cors_header_list(cors).len() == 0,
{
    reveal_strlit("access-control-allow-origin");
    reveal_strlit("content-type");
    if cors {
        let l = cors_header_list(cors);
        assert(l[0] == (allow_origin(), "*"@));
        match content_type {
            Some(t) => {
                let h = reply_header_list(content_type, cors);
                assert(h[1] == l[0]);
            },
            None => {},
        }
    } else {
        match content_type {
            Some(t) => {
                let h = reply_header_list(content_type, cors);
                assert(h.len() == 1);
                assert(h[0].0.len() != allow_origin().len());
            },
            None => {},
        }
    }
}

} // verus!
