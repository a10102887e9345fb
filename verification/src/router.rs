//! The HTTP router: a static route table and the request→response decisions.
//!
//! The table maps path patterns to handlers: page routes match their path
//! exactly and render the home page; the asset route matches every path
//! strictly under its prefix and serves the file at the relative remainder.
//! Dispatch is a single-pass decision with no state; the filesystem and
//! network edges stay outside the library, which only decides what the
//! response to a path — and to what the filesystem returned for it — must be.

use vstd::prelude::*;

use crate::controllers;
use crate::page::index::spec_index_fragment;
use crate::page::spec_render;
use crate::text::{starts_with_str, str_eq};

verus! {

/// What a route pattern maps to: the page handler or the static asset
/// directory.
pub enum RouteKind {
    Page,
    Assets,
}

/// One entry of the route table.  A `Page` route matches its path exactly; an
/// `Assets` route matches every path strictly under its prefix.
pub struct Route {
    pub kind: RouteKind,
    pub path: String,
}

/// The route table: built once at startup, immutable thereafter.  `traced`
/// records that the table is wrapped in the request-tracing layer, which logs
/// request metadata and has no effect on any response.
pub struct Router {
    pub routes: Vec<Route>,
    pub traced: bool,
}

/// The routing decision for one request path.
pub enum Dispatch {
    /// Render the home page.
    Page,
    /// Serve the file at this path relative to the asset root.
    Asset { rel: String },
    /// No route matches.
    NotFound,
}

/// Ghost form of a routing decision.
pub enum DispatchModel {
    Page,
    Asset(Seq<char>),
    NotFound,
}

impl View for Dispatch {
    type V = DispatchModel;

    open spec fn view(&self) -> DispatchModel {
        match self {
            Dispatch::Page => DispatchModel::Page,
            Dispatch::Asset { rel } => DispatchModel::Asset(rel@),
            Dispatch::NotFound => DispatchModel::NotFound,
        }
    }
}

/// Does this page route match the path?  Exact-path matching.
pub open spec fn page_match(r: Route, path: Seq<char>) -> bool {
    &&& r.kind is Page
    &&& r.path@ == path
}

/// Does this asset route match the path?  Exact-prefix matching: the path is
/// the route's prefix, a slash, and the relative remainder.
pub open spec fn asset_match(r: Route, path: Seq<char>) -> bool {
    &&& r.kind is Assets
    &&& path.len() > r.path@.len()
    &&& path.subrange(0, r.path@.len() as int) == r.path@
    &&& path[r.path@.len() as int] == '/'
}

/// The relative asset path: what follows the prefix and the slash.
pub open spec fn asset_rel(r: Route, path: Seq<char>) -> Seq<char> {
    path.subrange(r.path@.len() as int + 1, path.len() as int)
}

/// Route dispatch: the decision of the first entry whose pattern matches the
/// path, or `NotFound` when none does.
pub open spec fn spec_dispatch(routes: Seq<Route>, path: Seq<char>) -> DispatchModel
    decreases routes.len(),
{
    if routes.len() == 0 {
        DispatchModel::NotFound
    } else if page_match(routes[0], path) {
        DispatchModel::Page
    } else if asset_match(routes[0], path) {
        DispatchModel::Asset(asset_rel(routes[0], path))
    } else {
        spec_dispatch(routes.drop_first(), path)
    }
}

impl Router {
    /// Decide how a `GET` request for `path` is routed.
    pub fn dispatch(&self, path: &str) -> (d: Dispatch)
        ensures
            d@ == spec_dispatch(self.routes@, path@),
    {
        let n = self.routes.len();
        let mut i: usize = 0;
        proof {
            assert(self.routes@.subrange(0, n as int) =~= self.routes@);
        }
        while i < n
            invariant
                n == self.routes@.len(),
                i <= n,
                spec_dispatch(self.routes@, path@) == spec_dispatch(
                    self.routes@.subrange(i as int, n as int),
                    path@,
                ),
            decreases n - i,
        {
            proof {
                assert(self.routes@.subrange(i as int, n as int)[0] == self.routes@[i as int]);
                assert(self.routes@.subrange(i as int, n as int).drop_first() =~= self.routes@
                    .subrange(i as int + 1, n as int));
            }
            let route = &self.routes[i];
            match route.kind {
                RouteKind::Page => {
                    if str_eq(path, route.path.as_str()) {
                        return Dispatch::Page;
                    }
                },
                RouteKind::Assets => {
                    let plen = route.path.as_str().unicode_len();
                    let slen = path.unicode_len();
                    if plen < slen && starts_with_str(path, route.path.as_str()) && path.get_char(
                        plen,
                    ) == '/' {
                        let rel = path.substring_char(plen + 1, slen);
                        return Dispatch::Asset { rel: String::from_str(rel) };
                    }
                },
            }
            i += 1;
        }
        Dispatch::NotFound
    }
}

/// The page-route group: one exact route, `/`, rendering the Index View.
pub fn page_router() -> (r: Router)
    ensures
        r.routes@.len() == 1,
        r.routes@[0].kind is Page,
        r.routes@[0].path@ == "/"@,
        !r.traced,
{
    let mut routes: Vec<Route> = Vec::new();
    routes.push(Route { kind: RouteKind::Page, path: String::from_str("/") });
    Router { routes, traced: false }
}

/// The asset-route group: everything under `/assets` served from the static
/// asset directory.
pub fn asset_router() -> (r: Router)
    ensures
        r.routes@.len() == 1,
        r.routes@[0].kind is Assets,
        r.routes@[0].path@ == "/assets"@,
        !r.traced,
{
    let mut routes: Vec<Route> = Vec::new();
    routes.push(Route { kind: RouteKind::Assets, path: String::from_str("/assets") });
    Router { routes, traced: false }
}

/// The shape of the route table the server runs with, as `router_service`
/// builds it.
pub open spec fn is_service_table(r: Router) -> bool {
    &&& r.routes@.len() == 2
    &&& r.routes@[0].kind is Page
    &&& r.routes@[0].path@ == "/"@
    &&& r.routes@[1].kind is Assets
    &&& r.routes@[1].path@ == "/assets"@
}

/// The whole table: the page routes and the asset routes merged, wrapped in
/// the request-tracing layer.
pub fn root_router() -> (r: Router)
    ensures
        is_service_table(r),
        r.traced,
{
    let pages = page_router();
    let mut assets = asset_router();
    let mut routes = pages.routes;
    routes.append(&mut assets.routes);
    Router { routes, traced: true }
}

/// Law: in the server's route table, `GET /` dispatches to the page route.
pub proof fn lemma_page_route_dispatch(r: Router)
    requires
        is_service_table(r),
    ensures
        spec_dispatch(r.routes@, "/"@) is Page,
{
}

/// Law: every path under the asset prefix dispatches to the asset route, with
/// exactly the path's remainder relative to the prefix — so a found file
/// comes back byte-identical with status 200, and a missing one as 404, by
/// `respond_asset`'s contract.
pub proof fn lemma_asset_route_dispatch(r: Router, rel: Seq<char>)
    requires
        is_service_table(r),
    ensures
        spec_dispatch(r.routes@, "/assets/"@ + rel) == DispatchModel::Asset(rel),
{
    reveal_strlit("/");
    reveal_strlit("/assets");
    reveal_strlit("/assets/");
    let path = "/assets/"@ + rel;
    assert(path.len() == 8 + rel.len());
    assert("/"@.len() == 1);
    assert(!page_match(r.routes@[0], path));
    assert(path.subrange(0, 7) =~= "/assets"@);
    assert(path[7] == '/');
    assert(asset_match(r.routes@[1], path));
    assert(r.routes@.drop_first()[0] == r.routes@[1]);
    assert(asset_rel(r.routes@[1], path) =~= rel);
    assert(spec_dispatch(r.routes@, path) == spec_dispatch(r.routes@.drop_first(), path));
    assert(spec_dispatch(r.routes@.drop_first(), path) == DispatchModel::Asset(rel));
}

/// Law: the server's table routes nothing else — a path that is not exactly
/// `/` and does not sit strictly under `/assets` dispatches to `NotFound`.
/// Page matching is exact-path and asset matching is exact-prefix; there are
/// no wildcard page routes.
pub proof fn lemma_no_other_routes(r: Router, path: Seq<char>)
    requires
        is_service_table(r),
        path != "/"@,
        !(path.len() > 7 && path.subrange(0, 7) == "/assets"@ && path[7] == '/'),
    ensures
        spec_dispatch(r.routes@, path) is NotFound,
{
    reveal_strlit("/assets");
    assert("/assets"@.len() == 7);
    assert(!page_match(r.routes@[0], path));
    assert(!asset_match(r.routes@[0], path));
    assert(r.routes@.drop_first()[0] == r.routes@[1]);
    assert(!asset_match(r.routes@[1], path));
    assert(spec_dispatch(r.routes@, path) == spec_dispatch(r.routes@.drop_first(), path));
    assert(r.routes@.drop_first().drop_first().len() == 0);
    assert(spec_dispatch(r.routes@.drop_first(), path) == spec_dispatch(
        r.routes@.drop_first().drop_first(),
        path,
    ));
    assert(spec_dispatch(r.routes@.drop_first(), path) is NotFound);
}

/// The body of an HTTP response: a rendered HTML document for a page, raw
/// file bytes for an asset, nothing for an error.
pub enum ResponseBody {
    Text(String),
    Bytes(Vec<u8>),
    Empty,
}

/// An HTTP response as this server builds it: status code, content type where
/// one is set, and the body.
pub struct HttpResponse {
    pub status: u16,
    pub content_type: Option<String>,
    pub body: ResponseBody,
}

/// The file extension of a relative path: the characters after the last `.`
/// of its last segment, or nothing when that segment has no dot.
pub open spec fn spec_ext_of(s: Seq<char>) -> Option<Seq<char>>
    decreases s.len(),
{
    if s.len() == 0 {
        None
    } else if s.last() == '.' {
        Some(Seq::<char>::empty())
    } else if s.last() == '/' {
        None
    } else {
        match spec_ext_of(s.drop_last()) {
            None => None,
            Some(e) => Some(e.push(s.last())),
        }
    }
}

/// Scanning back from the end over characters that are neither `.` nor `/`,
/// the extension is settled by the first `.` or `/` found, if any.
proof fn lemma_ext_scan(s: Seq<char>, i: int)
    requires
        0 <= i <= s.len(),
        forall|k: int| i <= k < s.len() ==> #[trigger] s[k] != '.' && s[k] != '/',
    ensures
        i > 0 && s[i - 1] == '.' ==> spec_ext_of(s) == Some(s.subrange(i, s.len() as int)),
        i > 0 && s[i - 1] == '/' ==> spec_ext_of(s) is None,
        i == 0 ==> spec_ext_of(s) is None,
    decreases s.len() - i,
{
    if i < s.len() {
        lemma_ext_scan(s.drop_last(), i);
        if i > 0 && s[i - 1] == '.' {
            assert(s.drop_last().subrange(i, s.len() - 1).push(s.last()) =~= s.subrange(
                i,
                s.len() as int,
            ));
        }
    }
}

/// The extension of a relative path, as `spec_ext_of` gives it.
pub fn extension_of(path: &str) -> (r: Option<String>)
    ensures
        match r {
            Some(e) => spec_ext_of(path@) == Some(e@),
            None => spec_ext_of(path@) is None,
        },
{
    let n = path.unicode_len();
    let mut i: usize = n;
    while i > 0
        invariant
            n == path@.len(),
            i <= n,
            forall|k: int| i <= k < n ==> #[trigger] path@[k] != '.' && path@[k] != '/',
        decreases i,
    {
        let c = path.get_char(i - 1);
        if c == '.' {
            let ext = path.substring_char(i, n);
            proof {
                lemma_ext_scan(path@, i as int);
            }
            return Some(String::from_str(ext));
        }
        if c == '/' {
            proof {
                lemma_ext_scan(path@, i as int);
            }
            return None;
        }
        i -= 1;
    }
    proof {
        lemma_ext_scan(path@, 0);
    }
    None
}

/// The content type served for a file extension, inferred the way the asset
/// route infers it.
pub open spec fn spec_content_type(ext: Option<Seq<char>>) -> Seq<char> {
    if ext == Some("css"@) {
        "text/css"@
    } else if ext == Some("html"@) {
        "text/html"@
    } else if ext == Some("js"@) {
        "text/javascript"@
    } else if ext == Some("png"@) {
        "image/png"@
    } else if ext == Some("svg"@) {
        "image/svg+xml"@
    } else if ext == Some("ico"@) {
        "image/x-icon"@
    } else if ext == Some("txt"@) {
        "text/plain"@
    } else {
        "application/octet-stream"@
    }
}

/// Infer the content type for a relative asset path from its extension.
pub fn content_type_for(path: &str) -> (r: &'static str)
    ensures
        r@ == spec_content_type(spec_ext_of(path@)),
{
    match extension_of(path) {
        None => "application/octet-stream",
        Some(e) => {
            let ext = e.as_str();
            if str_eq(ext, "css") {
                "text/css"
            } else if str_eq(ext, "html") {
                "text/html"
            } else if str_eq(ext, "js") {
                "text/javascript"
            } else if str_eq(ext, "png") {
                "image/png"
            } else if str_eq(ext, "svg") {
                "image/svg+xml"
            } else if str_eq(ext, "ico") {
                "image/x-icon"
            } else if str_eq(ext, "txt") {
                "text/plain"
            } else {
                "application/octet-stream"
            }
        },
    }
}

/// Answer `GET /`: status 200, `text/html; charset=utf-8`, and the home-page
/// document — the Index View's fragment inside the skeleton under the site
/// title.
pub fn respond_page() -> (r: HttpResponse)
    ensures
        r.status == 200,
        r.content_type matches Some(ct) && ct@ == "text/html; charset=utf-8"@,
        r.body matches ResponseBody::Text(t) && t@ == spec_render(
            spec_index_fragment(),
            controllers::spec_site_title(),
        ),
{
    HttpResponse {
        status: 200,
        content_type: Some(String::from_str("text/html; charset=utf-8")),
        body: ResponseBody::Text(controllers::index()),
    }
}

/// Answer `GET /assets/<rel>`, given what the filesystem returned for the
/// relative path: the file's bytes verbatim with the content type inferred
/// from the extension when the file exists, and 404 when it does not.
pub fn respond_asset(rel: &str, file: Option<Vec<u8>>) -> (r: HttpResponse)
    ensures
        file matches Some(bytes) ==> {
            &&& r.status == 200
            &&& r.content_type matches Some(ct) && ct@ == spec_content_type(spec_ext_of(rel@))
            &&& r.body matches ResponseBody::Bytes(b) && b@ == bytes@
        },
        file is None ==> r.status == 404 && r.content_type is None && r.body is Empty,
{
    match file {
        Some(bytes) => HttpResponse {
            status: 200,
            content_type: Some(String::from_str(content_type_for(rel))),
            body: ResponseBody::Bytes(bytes),
        },
        None => respond_not_found(),
    }
}

/// Answer a request no route matches: status 404 with an empty body.
pub fn respond_not_found() -> (r: HttpResponse)
    ensures
        r.status == 404,
        r.content_type is None,
        r.body is Empty,
{
    HttpResponse { status: 404, content_type: None, body: ResponseBody::Empty }
}

/// The route table the server runs with.
pub fn router_service() -> (r: Router)
    ensures
        is_service_table(r),
        r.traced,
{
    root_router()
}

} // verus!

