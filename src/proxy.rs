//! Rendering routes as reverse-proxy location blocks.
use vstd::prelude::*;

use crate::model::Registry;
use crate::routes::{compile_routes, pairs_view, registry_routes, route_models, RouteModel, RouteSpec};
use crate::text::{decimal, decimal_text, join, join_texts, texts};

verus! {

/// The header directives that every location block pulls in.
pub const PROXY_HEADERS: &'static str = "proxy_http_version 1.1;
proxy_set_header Upgrade $http_upgrade;
proxy_set_header Connection 'upgrade';
proxy_set_header Host $host;
proxy_cache_bypass $http_upgrade;
proxy_set_header X-Real-IP $remote_addr;
proxy_set_header X-Forwarded-For $proxy_add_x_forwarded_for;
proxy_set_header X-Forwarded-Proto $scheme;";

/// `key=value`.
pub open spec fn query_pair_text(p: (Seq<char>, Seq<char>)) -> Seq<char> {
    p.0 + "="@ + p.1
}

/// Nothing for no parameters, else `?` and the pairs joined by `&`, in order.
pub open spec fn query_suffix(q: Seq<(Seq<char>, Seq<char>)>) -> Seq<char> {
    if q.len() == 0 {
        Seq::empty()
    } else {
        "?"@ + join(q.map_values(|p: (Seq<char>, Seq<char>)| query_pair_text(p)), "&"@)
    }
}

pub open spec fn location_block_text(
    path: Seq<char>,
    port: u16,
    subpath: Seq<char>,
    q: Seq<(Seq<char>, Seq<char>)>,
) -> Seq<char> {
    "location "@ + path + " {\n    proxy_pass http://127.0.0.1:"@ + decimal(port as nat) + "/"@
        + subpath + query_suffix(q) + ";\n    include proxy-headers.conf;\n}"@
}

pub open spec fn route_block(m: RouteModel) -> Seq<char> {
    location_block_text(m.public_path, m.backend_port, m.backend_subpath, m.query)
}

/// The blocks of all routes in order, a blank line between two blocks.
pub open spec fn proxy_config_text(routes: Seq<RouteModel>) -> Seq<char> {
    join(routes.map_values(|m: RouteModel| route_block(m)), "\n\n"@)
}

/// Writes the query suffix of a location's target.
pub fn query_suffix_text(query: &Vec<(String, String)>) -> (r: String)
    ensures
        r@ == query_suffix(pairs_view(query@)),
{
    if query.len() == 0 {
        return String::new();
    }
    let mut parts: Vec<String> = Vec::new();
    let mut i: usize = 0;
    while i < query.len()
        invariant
            i <= query@.len(),
            texts(parts@) =~= pairs_view(query@).take(i as int).map_values(
                |p: (Seq<char>, Seq<char>)| query_pair_text(p),
            ),
        decreases query@.len() - i,
    {
        let mut s = query[i].0.clone();
        s.append("=");
        s.append(query[i].1.as_str());
        let ghost prev = parts@;
        let ghost pv = pairs_view(query@);
        assert(s@ == query_pair_text(pv[i as int]));
        parts.push(s);
        proof {
            let f = |p: (Seq<char>, Seq<char>)| query_pair_text(p);
            assert(texts(parts@) =~= texts(prev).push(query_pair_text(pv[i as int])));
            assert(pv.take(i + 1).map_values(f) =~= pv.take(i as int).map_values(f).push(
                query_pair_text(pv[i as int]),
            ));
        }
        i = i + 1;
    }
    assert(pairs_view(query@).take(i as int) =~= pairs_view(query@));
    let joined = join_texts(&parts, "&");
    let mut out = String::from_str("?");
    out.append(joined.as_str());
    out
}

/// One location block: the public path and the backend address it proxies to.
pub fn generate_location_block(fe_path: &str, port: u16, be_path: &str, query: &Vec<(String, String)>) -> (r: String)
    ensures
        r@ == location_block_text(fe_path@, port, be_path@, pairs_view(query@)),
{
    let suffix = query_suffix_text(query);
    let digits = decimal_text(port as u32);
    let mut out = String::from_str("location ");
    out.append(fe_path);
    out.append(" {\n    proxy_pass http://127.0.0.1:");
    out.append(digits.as_str());
    out.append("/");
    out.append(be_path);
    out.append(suffix.as_str());
    out.append(";\n    include proxy-headers.conf;\n}");
    out
}

/// Renders routes as location blocks, a blank line between two blocks.
pub fn render_routes(routes: &Vec<RouteSpec>) -> (r: String)
    ensures
        r@ == proxy_config_text(route_models(routes@)),
{
    let mut blocks: Vec<String> = Vec::new();
    let mut i: usize = 0;
    while i < routes.len()
        invariant
            i <= routes@.len(),
            texts(blocks@) =~= route_models(routes@).take(i as int).map_values(
                |m: RouteModel| route_block(m),
            ),
        decreases routes@.len() - i,
    {
        let r = &routes[i];
        let b = generate_location_block(
            r.public_path.as_str(),
            r.backend_port,
            r.backend_subpath.as_str(),
            &r.query,
        );
        let ghost prev = blocks@;
        let ghost rm = route_models(routes@);
        assert(b@ == route_block(rm[i as int]));
        blocks.push(b);
        proof {
            let f = |m: RouteModel| route_block(m);
            assert(texts(blocks@) =~= texts(prev).push(route_block(rm[i as int])));
            assert(rm.take(i + 1).map_values(f) =~= rm.take(i as int).map_values(f).push(
                route_block(rm[i as int]),
            ));
        }
        i = i + 1;
    }
    assert(route_models(routes@).take(i as int) =~= route_models(routes@));
    join_texts(&blocks, "\n\n")
}

/// The location blocks of every route of the registry.
pub fn generate_nginx_config(languages: &Registry) -> (r: String)
    ensures
        r@ == proxy_config_text(registry_routes(*languages)),
{
    let routes = compile_routes(languages);
    render_routes(&routes)
}

/// The shared header directives; the same text on every call.
pub fn generate_proxy_headers_config() -> (r: String)
    ensures
        r@ == PROXY_HEADERS@,
{
    String::from_str(PROXY_HEADERS)
}

} // verus!
