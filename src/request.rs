//! Translation of a generic HTTP request into the request shape that the
//! host's outbound-HTTP capability accepts.

use vstd::prelude::*;
use crate::kube_config::ConnectionConfig;

verus! {

/// The request methods that the host can send.
#[derive(Clone, Copy, Debug, PartialEq, Eq, Structural)]
pub enum HostMethod {
    Get,
    Post,
    Put,
    Delete,
    Patch,
    Head,
    Options,
}

/// The host method for a method name; `None` for any other method.
pub open spec fn method_of(name: Seq<char>) -> Option<HostMethod> {
    if name == "GET"@ {
        Some(HostMethod::Get)
    } else if name == "POST"@ {
        Some(HostMethod::Post)
    } else if name == "PUT"@ {
        Some(HostMethod::Put)
    } else if name == "DELETE"@ {
        Some(HostMethod::Delete)
    } else if name == "PATCH"@ {
        Some(HostMethod::Patch)
    } else if name == "HEAD"@ {
        Some(HostMethod::Head)
    } else if name == "OPTIONS"@ {
        Some(HostMethod::Options)
    } else {
        None
    }
}

/// Maps a method name to the host's method.
pub fn host_method(name: &String) -> (r: Option<HostMethod>)
    ensures
        r == method_of(name@),
{
    if *name == String::from_str("GET") {
        Some(HostMethod::Get)
    } else if *name == String::from_str("POST") {
        Some(HostMethod::Post)
    } else if *name == String::from_str("PUT") {
        Some(HostMethod::Put)
    } else if *name == String::from_str("DELETE") {
        Some(HostMethod::Delete)
    } else if *name == String::from_str("PATCH") {
        Some(HostMethod::Patch)
    } else if *name == String::from_str("HEAD") {
        Some(HostMethod::Head)
    } else if *name == String::from_str("OPTIONS") {
        Some(HostMethod::Options)
    } else {
        None
    }
}

/// A byte that a text header value may hold: visible ASCII or a tab.
pub open spec fn is_header_char(b: u8) -> bool {
    (32 <= b && b < 127) || b == 9
}

/// The characters of ASCII bytes, one for each byte.
pub open spec fn ascii_text(b: Seq<u8>) -> Seq<char> {
    b.map_values(|x: u8| x as char)
}

/// Relies on `String::from_utf8`: ASCII bytes are valid UTF-8, and each
/// stands for the character of the same code.
#[verifier::external_body]
fn text_of_ascii(b: &Vec<u8>) -> (r: Option<String>)
    requires
        forall|i: int| 0 <= i < b@.len() ==> b@[i] < 128,
    ensures
        r is Some,
        r.unwrap()@ == ascii_text(b@),
{
    String::from_utf8(b.clone()).ok()
}

/// A header value as text, where every byte of it may stand in text.
pub open spec fn header_text(v: Seq<u8>) -> Option<Seq<char>> {
    if forall|i: int| 0 <= i < v.len() ==> is_header_char(#[trigger] v[i]) {
        Some(ascii_text(v))
    } else {
        None
    }
}

/// Reads a header value as text; `None` where a byte of it cannot stand in
/// a text header.
pub fn header_value_text(v: &Vec<u8>) -> (r: Option<String>)
    ensures
        r is Some <==> header_text(v@) is Some,
        r matches Some(s) ==> header_text(v@) == Some(s@),
{
    let mut i: usize = 0;
    while i < v.len()
        invariant
            i <= v@.len(),
            forall|j: int| 0 <= j < i ==> is_header_char(#[trigger] v@[j]),
        decreases v@.len() - i,
    {
        let b = v[i];
        if !((32 <= b && b < 127) || b == 9) {
            return None;
        }
        i = i + 1;
    }
    text_of_ascii(v)
}


/// The text view of a sequence of string pairs.
pub open spec fn pairs_view(s: Seq<(String, String)>) -> Seq<(Seq<char>, Seq<char>)> {
    s.map_values(|p: (String, String)| (p.0@, p.1@))
}

/// The headers that can be forwarded as text, in their original order:
/// those whose value is valid text; the others are dropped.
pub open spec fn kept_headers(hs: Seq<(String, Vec<u8>)>) -> Seq<(Seq<char>, Seq<char>)>
    decreases hs.len(),
{
    if hs.len() == 0 {
        Seq::empty()
    } else {
        let rest = kept_headers(hs.drop_last());
        match header_text(hs.last().1@) {
            Some(t) => rest.push((hs.last().0@, t)),
            None => rest,
        }
    }
}

/// Keeps the headers whose value is valid text, as text, in order.
pub fn text_headers(hs: &Vec<(String, Vec<u8>)>) -> (r: Vec<(String, String)>)
    ensures
        pairs_view(r@) == kept_headers(hs@),
{
    let mut out: Vec<(String, String)> = Vec::new();
    let mut i: usize = 0;
    while i < hs.len()
        invariant
            i <= hs@.len(),
            pairs_view(out@) == kept_headers(hs@.take(i as int)),
        decreases hs@.len() - i,
    {
        assert(hs@.take(i + 1).drop_last() =~= hs@.take(i as int));
        let (name, value) = &hs[i];
        match header_value_text(value) {
            Some(t) => {
                out.push((name.clone(), t));
                assert(pairs_view(out@) =~= kept_headers(hs@.take(i as int)).push((name@, t@)));
            },
            None => {},
        }
        i = i + 1;
    }
    assert(hs@.take(hs@.len() as int) =~= hs@);
    out
}

/// Headers whose values are all valid text are all forwarded, in their
/// original order, with their names unchanged.
pub proof fn lemma_text_headers_are_all_kept(hs: Seq<(String, Vec<u8>)>)
    requires
        forall|i: int| 0 <= i < hs.len() ==> (#[trigger] header_text(hs[i].1@)) is Some,
    ensures
        kept_headers(hs).len() == hs.len(),
        forall|i: int| 0 <= i < hs.len() ==> (#[trigger] kept_headers(hs)[i]).0 == hs[i].0@ && header_text(
            hs[i].1@,
        ) == Some(kept_headers(hs)[i].1),
    decreases hs.len(),
{
    if hs.len() > 0 {
        let init = hs.drop_last();
        assert forall|i: int| 0 <= i < init.len() implies (#[trigger] header_text(init[i].1@)) is Some by {
            assert(init[i] == hs[i]);
        }
        lemma_text_headers_are_all_kept(init);
        assert(header_text(hs.last().1@) is Some);
        assert forall|i: int| 0 <= i < hs.len() implies (#[trigger] kept_headers(hs)[i]).0 == hs[i].0@
            && header_text(hs[i].1@) == Some(kept_headers(hs)[i].1) by {
            if i < hs.len() - 1 {
                assert(init[i] == hs[i]);
            }
        }
    }
}

/// The `&`-separated segments of a query string; an empty string is one
/// empty segment.
pub open spec fn segments(q: Seq<char>) -> Seq<Seq<char>>
    decreases q.len(),
{
    if q.len() == 0 {
        seq![Seq::empty()]
    } else {
        let prev = segments(q.drop_last());
        if q.last() == '&' {
            prev.push(Seq::empty())
        } else {
            prev.update(prev.len() - 1, prev.last().push(q.last()))
        }
    }
}

/// The number of `=` in a text.
pub open spec fn eq_count(s: Seq<char>) -> nat
    decreases s.len(),
{
    if s.len() == 0 {
        0
    } else {
        eq_count(s.drop_last()) + if s.last() == '=' { 1nat } else { 0nat }
    }
}

/// The position of the first `=` in a text that holds one.
pub open spec fn first_eq(s: Seq<char>) -> int
    decreases s.len(),
{
    if s.len() == 0 {
        0
    } else if eq_count(s.drop_last()) > 0 {
        first_eq(s.drop_last())
    } else {
        s.len() - 1
    }
}

/// The name and value of a query segment: the text around its `=`, where it
/// holds exactly one.
pub open spec fn segment_pair(s: Seq<char>) -> Option<(Seq<char>, Seq<char>)> {
    if eq_count(s) == 1 {
        Some((s.take(first_eq(s)), s.skip(first_eq(s) + 1)))
    } else {
        None
    }
}

/// The pairs of the segments that hold one, in order.
pub open spec fn segment_pairs(segs: Seq<Seq<char>>) -> Seq<(Seq<char>, Seq<char>)>
    decreases segs.len(),
{
    if segs.len() == 0 {
        Seq::empty()
    } else {
        let rest = segment_pairs(segs.drop_last());
        match segment_pair(segs.last()) {
            Some(p) => rest.push(p),
            None => rest,
        }
    }
}

/// The name/value pairs of a query string.
pub open spec fn query_pairs(q: Seq<char>) -> Seq<(Seq<char>, Seq<char>)> {
    segment_pairs(segments(q))
}

fn split_segments(q: &String) -> (r: Vec<String>)
    ensures
        r@.map_values(|s: String| s@) == segments(q@),
{
    let text = q.as_str();
    let n = text.unicode_len();
    let mut out: Vec<String> = Vec::new();
    let mut start: usize = 0;
    let mut i: usize = 0;
    assert(q@.take(0).len() == 0);
    assert(out@.map_values(|s: String| s@) =~= Seq::<Seq<char>>::empty());
    assert(segments(q@.take(0)) == seq![Seq::<char>::empty()]);
    assert(q@.subrange(0, 0) =~= Seq::<char>::empty());
    assert(out@.map_values(|s: String| s@).push(q@.subrange(0, 0)) =~= seq![Seq::<char>::empty()]);
    while i < n
        invariant
            start <= i <= n,
            n == q@.len(),
            text@ == q@,
            out@.map_values(|s: String| s@).push(q@.subrange(start as int, i as int)) == segments(q@.take(i as int)),
        decreases n - i,
    {
        let c = text.get_char(i);
        let ghost prev = out@.map_values(|s: String| s@);
        let ghost before = prev.push(q@.subrange(start as int, i as int));
        assert(q@.take(i + 1).drop_last() =~= q@.take(i as int));
        assert(q@.take(i + 1).last() == c);
        if c == '&' {
            let seg = String::from_str(text.substring_char(start, i));
            out.push(seg);
            assert(out@.map_values(|s: String| s@) =~= prev.push(q@.subrange(start as int, i as int)));
            start = i + 1;
            assert(q@.subrange(start as int, i + 1) =~= Seq::<char>::empty());
            assert(out@.map_values(|s: String| s@).push(q@.subrange(start as int, i + 1)) =~= before.push(Seq::empty()));
        } else {
            assert(q@.subrange(start as int, i + 1) =~= q@.subrange(start as int, i as int).push(c));
            assert(prev.push(q@.subrange(start as int, i + 1)) =~= before.update(
                before.len() - 1,
                before.last().push(c),
            ));
        }
        i = i + 1;
    }
    assert(q@.take(n as int) =~= q@);
    let last = String::from_str(text.substring_char(start, n));
    out.push(last);
    assert(out@.map_values(|s: String| s@) =~= segments(q@));
    out
}

/// The name and value of one query segment, where it holds exactly one `=`.
pub fn query_pair(seg: &String) -> (r: Option<(String, String)>)
    ensures
        match r {
            Some(p) => segment_pair(seg@) == Some((p.0@, p.1@)),
            None => segment_pair(seg@) is None,
        },
{
    let text = seg.as_str();
    let n = text.unicode_len();
    let mut count: usize = 0;
    let mut first: usize = 0;
    let mut i: usize = 0;
    while i < n
        invariant
            i <= n,
            n == seg@.len(),
            text@ == seg@,
            count == eq_count(seg@.take(i as int)),
            count <= i,
            count > 0 ==> first == first_eq(seg@.take(i as int)) && first < i,
        decreases n - i,
    {
        let c = text.get_char(i);
        assert(seg@.take(i + 1).drop_last() =~= seg@.take(i as int));
        if c == '=' {
            if count == 0 {
                first = i;
            }
            count = count + 1;
        }
        i = i + 1;
    }
    assert(seg@.take(n as int) =~= seg@);
    if count == 1 {
        let name = String::from_str(text.substring_char(0, first));
        let value = String::from_str(text.substring_char(first + 1, n));
        assert(name@ =~= seg@.take(first as int));
        assert(value@ =~= seg@.skip(first + 1));
        Some((name, value))
    } else {
        None
    }
}

/// Parses a query string into name/value pairs: it is split at each `&`,
/// and each segment with exactly one `=` gives the text before and after
/// it; the other segments are dropped.
pub fn parse_query(q: &String) -> (r: Vec<(String, String)>)
    ensures
        pairs_view(r@) == query_pairs(q@),
{
    let segs = split_segments(q);
    let ghost views = segs@.map_values(|s: String| s@);
    let mut out: Vec<(String, String)> = Vec::new();
    let mut i: usize = 0;
    while i < segs.len()
        invariant
            i <= segs@.len(),
            views == segs@.map_values(|s: String| s@),
            views == segments(q@),
            pairs_view(out@) == segment_pairs(views.take(i as int)),
        decreases segs@.len() - i,
    {
        assert(views.take(i + 1).drop_last() =~= views.take(i as int));
        assert(views.take(i + 1).last() == segs@[i as int]@);
        match query_pair(&segs[i]) {
            Some(p) => {
                out.push(p);
                assert(pairs_view(out@) =~= segment_pairs(views.take(i as int)).push((p.0@, p.1@)));
            },
            None => {},
        }
        i = i + 1;
    }
    assert(views.take(segs@.len() as int) =~= views);
    out
}


/// The components of a URI that the translation reads.
#[derive(Clone, Debug)]
pub struct UriParts {
    pub scheme: Option<String>,
    pub authority: Option<String>,
    pub path_and_query: Option<String>,
    pub query: Option<String>,
}

/// The value of [`UriParts`].
pub struct UriComponents {
    pub scheme: Option<Seq<char>>,
    pub authority: Option<Seq<char>>,
    pub path_and_query: Option<Seq<char>>,
    pub query: Option<Seq<char>>,
}

/// The text of an optional string.
pub open spec fn text_view(s: Option<String>) -> Option<Seq<char>> {
    match s {
        Some(t) => Some(t@),
        None => None,
    }
}

impl View for UriParts {
    type V = UriComponents;

    open spec fn view(&self) -> UriComponents {
        UriComponents {
            scheme: text_view(self.scheme),
            authority: text_view(self.authority),
            path_and_query: text_view(self.path_and_query),
            query: text_view(self.query),
        }
    }
}

/// What parsing a text as an `http::Uri` gives: its components, or `None`
/// where the text is no valid URI.
pub uninterp spec fn uri_parts_of(s: Seq<char>) -> Option<UriComponents>;

/// What `http::uri::Builder` builds from a scheme, an authority and a path
/// with query, written out as text; `None` where a part is not valid.
pub uninterp spec fn built_uri(scheme: Seq<char>, authority: Seq<char>, path_and_query: Seq<char>) -> Option<Seq<char>>;

/// Relies on `http::Uri`'s `FromStr` and on its accessors `scheme_str`,
/// `authority`, `path_and_query` and `query`.
#[verifier::external_body]
fn parse_uri(s: &String) -> (r: Option<UriParts>)
    ensures
        match r {
            Some(p) => uri_parts_of(s@) == Some(p@),
            None => uri_parts_of(s@) is None,
        },
{
    let u = s.parse::<k8s_openapi::http::Uri>().ok()?;
    Some(UriParts {
        scheme: u.scheme_str().map(String::from),
        authority: u.authority().map(|a| a.as_str().to_string()),
        path_and_query: u.path_and_query().map(|p| p.as_str().to_string()),
        query: u.query().map(String::from),
    })
}

/// A path and query that `http` keeps as given: non-empty, without a
/// fragment mark, and shorter than its query index can reach.
pub open spec fn kept_path_and_query(pq: Seq<char>) -> bool {
    0 < pq.len() <= 65535 && !pq.contains('#')
}

/// Relies on `http::uri::Builder` (`scheme`, `authority`, `path_and_query`,
/// `build`) and on `Uri`'s `Display`, which writes the scheme, `://`, the
/// authority, the path (`/` where it is empty) and `?` with the query. Scheme
/// and authority are kept as given. A path and query is kept as given where
/// it has no fragment and is short enough for its query position to be
/// recorded (below 65535 bytes; only ASCII is accepted).
#[verifier::external_body]
fn build_uri(scheme: &String, authority: &String, path_and_query: &String) -> (r: Option<String>)
    ensures
        match r {
            Some(u) => built_uri(scheme@, authority@, path_and_query@) == Some(u@),
            None => built_uri(scheme@, authority@, path_and_query@) is None,
        },
        r is Some && kept_path_and_query(path_and_query@) && path_and_query@[0] == '/' ==> r.unwrap()@
            == scheme@ + "://"@ + authority@ + path_and_query@,
        r is Some && kept_path_and_query(path_and_query@) && path_and_query@[0] == '?' ==> r.unwrap()@
            == scheme@ + "://"@ + authority@ + "/"@ + path_and_query@,
{
    let built = k8s_openapi::http::uri::Builder::new()
        .scheme(scheme.as_str())
        .authority(authority.as_str())
        .path_and_query(path_and_query.as_str())
        .build();
    built.ok().map(|u| u.to_string())
}

/// Failures while translating a request for the host.
#[derive(Clone, Debug, PartialEq, Eq)]
pub enum TranslationError {
    /// The host cannot send this method.
    UnsupportedMethod(String),
    /// A URI cannot be parsed, lacks a needed part, or cannot be composed;
    /// the offending text is kept.
    MalformedUri(String),
    /// The host rejected the call; its detail is kept.
    SandboxCallFailed(String),
}

/// The scheme to use: the given one, or `https` where none is given.
pub open spec fn scheme_or_https(s: Option<Seq<char>>) -> Seq<char> {
    match s {
        Some(t) => t,
        None => "https"@,
    }
}

/// The outbound URI: the scheme and authority of the endpoint's URL, the
/// path and query of the request's URI. `Err` holds the offending text.
pub open spec fn composed_uri(base: Seq<char>, target: Seq<char>) -> Result<Seq<char>, Seq<char>> {
    match uri_parts_of(target) {
        None => Err(target),
        Some(t) => match t.path_and_query {
            None => Err(target),
            Some(pq) => match uri_parts_of(base) {
                None => Err(base),
                Some(b) => match b.authority {
                    None => Err(base),
                    Some(a) => match built_uri(scheme_or_https(b.scheme), a, pq) {
                        Some(u) => Ok(u),
                        None => Err(base),
                    },
                },
            },
        },
    }
}

/// Where both URIs parse and the request's path and query is kept as given
/// (see [`kept_path_and_query`]), `u` spells out the endpoint's scheme (or
/// `https`), `://`, the endpoint's authority, then the request's path and
/// query (after a `/` where the path is empty): nothing of the endpoint's
/// path or the request's authority.
pub open spec fn spells_composition(base: Seq<char>, target: Seq<char>, u: Seq<char>) -> bool {
    match (uri_parts_of(base), uri_parts_of(target)) {
        (Some(b), Some(t)) => match (b.authority, t.path_and_query) {
            (Some(a), Some(pq)) => kept_path_and_query(pq) ==> {
                &&& pq[0] == '/' ==> u == scheme_or_https(b.scheme) + "://"@ + a + pq
                &&& pq[0] == '?' ==> u == scheme_or_https(b.scheme) + "://"@ + a + "/"@ + pq
            },
            _ => true,
        },
        _ => true,
    }
}

/// Composes the outbound URI from the endpoint's URL and the request's URI.
pub fn compose_uri(base: &String, target: &String) -> (r: Result<String, TranslationError>)
    ensures
        match composed_uri(base@, target@) {
            Ok(u) => r matches Ok(s) && s@ == u,
            Err(bad) => r matches Err(TranslationError::MalformedUri(s)) && s@ == bad,
        },
        r matches Ok(s) ==> spells_composition(base@, target@, s@),
{
    let t = match parse_uri(target) {
        Some(t) => t,
        None => return Err(TranslationError::MalformedUri(target.clone())),
    };
    let pq = match &t.path_and_query {
        Some(pq) => pq,
        None => return Err(TranslationError::MalformedUri(target.clone())),
    };
    let b = match parse_uri(base) {
        Some(b) => b,
        None => return Err(TranslationError::MalformedUri(base.clone())),
    };
    let authority = match &b.authority {
        Some(a) => a,
        None => return Err(TranslationError::MalformedUri(base.clone())),
    };
    let scheme = match &b.scheme {
        Some(s) => s.clone(),
        None => String::from_str("https"),
    };
    match build_uri(&scheme, authority, pq) {
        Some(u) => Ok(u),
        None => Err(TranslationError::MalformedUri(base.clone())),
    }
}

/// The query parameters of a request URI: the pairs of its query, or none
/// where it has no query.
pub open spec fn request_query_pairs(target: Seq<char>) -> Seq<(Seq<char>, Seq<char>)> {
    match uri_parts_of(target) {
        Some(t) => match t.query {
            Some(q) => query_pairs(q),
            None => Seq::empty(),
        },
        None => Seq::empty(),
    }
}

/// The name/value pairs of a request URI's query.
pub fn request_params(target: &String) -> (r: Vec<(String, String)>)
    ensures
        pairs_view(r@) == request_query_pairs(target@),
{
    match parse_uri(target) {
        Some(t) => match &t.query {
            Some(q) => parse_query(q),
            None => Vec::new(),
        },
        None => Vec::new(),
    }
}

/// A generic HTTP request, as the typed resource client produced it.
/// Header values are raw bytes; `method` is the method's name.
#[derive(Clone, Debug)]
pub struct OutboundRequest {
    pub method: String,
    pub uri: String,
    pub headers: Vec<(String, Vec<u8>)>,
    pub body: Option<Vec<u8>>,
}

/// The request as the host takes it, with the configuration handle that it
/// is sent under.
#[derive(Clone, Debug)]
pub struct HostRequest {
    pub method: HostMethod,
    pub uri: String,
    pub headers: Vec<(String, String)>,
    pub params: Vec<(String, String)>,
    pub body: Vec<u8>,
    pub config_id: String,
}

/// The body to send: a missing body is sent as empty.
pub open spec fn body_bytes(body: Option<Vec<u8>>) -> Seq<u8> {
    match body {
        Some(b) => b@,
        None => Seq::empty(),
    }
}

/// Translates a request for the host, to be sent under the registered
/// configuration `req_cfg_id`: the method is mapped (any other method is
/// refused before anything else is done), headers whose value is not valid
/// text are dropped, the query becomes parameters, and the URI takes the
/// endpoint's scheme and authority with the request's path and query.
pub fn make_request(request: &OutboundRequest, connection_config: &ConnectionConfig, req_cfg_id: &str) -> (r: Result<HostRequest, TranslationError>)
    ensures
        method_of(request.method@) is None ==> r == Err::<HostRequest, TranslationError>(
            TranslationError::UnsupportedMethod(request.method),
        ),
        method_of(request.method@) matches Some(m) ==> match composed_uri(connection_config.server.url@, request.uri@) {
            Err(bad) => r matches Err(TranslationError::MalformedUri(s)) && s@ == bad,
            Ok(u) => r matches Ok(h) && h.method == m && h.uri@ == u && pairs_view(h.headers@) == kept_headers(request.headers@)
                && pairs_view(h.params@) == request_query_pairs(request.uri@) && h.body@ == body_bytes(request.body)
                && h.config_id@ == req_cfg_id@ && spells_composition(connection_config.server.url@, request.uri@, h.uri@),
        },
{
    let method = match host_method(&request.method) {
        Some(m) => m,
        None => return Err(TranslationError::UnsupportedMethod(request.method.clone())),
    };
    let headers = text_headers(&request.headers);
    let params = request_params(&request.uri);
    let uri = match compose_uri(&connection_config.server.url, &request.uri) {
        Ok(u) => u,
        Err(e) => return Err(e),
    };
    let body = match &request.body {
        Some(b) => {
            let copy = b.clone();
            assert(copy@ =~= b@);
            copy
        },
        None => Vec::new(),
    };
    Ok(HostRequest { method, uri, headers, params, body, config_id: String::from_str(req_cfg_id) })
}

/// The raw answer of the host to a request.
#[derive(Clone, Debug, PartialEq, Eq)]
pub struct OutboundResponse {
    pub status: u16,
    pub body: Option<Vec<u8>>,
}

/// Interprets the host's answer to a request: the response is handed on
/// unchanged, a rejection becomes `SandboxCallFailed`.
pub fn accept_response(answer: Result<OutboundResponse, String>) -> (r: Result<OutboundResponse, TranslationError>)
    ensures
        match answer {
            Ok(resp) => r == Ok::<OutboundResponse, TranslationError>(resp),
            Err(detail) => r == Err::<OutboundResponse, TranslationError>(TranslationError::SandboxCallFailed(detail)),
        },
{
    match answer {
        Ok(resp) => Ok(resp),
        Err(detail) => Err(TranslationError::SandboxCallFailed(detail)),
    }
}

/// The endpoint contributes only its scheme and authority: two endpoint
/// URLs with the same scheme and authority compose the same URI for any
/// request, whatever their own paths and queries.
pub proof fn lemma_endpoint_path_is_discarded(base1: Seq<char>, base2: Seq<char>, target: Seq<char>)
    requires
        uri_parts_of(base1) matches Some(p1) && uri_parts_of(base2) matches Some(p2)
            && p1.scheme == p2.scheme && p1.authority == p2.authority,
    ensures
        composed_uri(base1, target) is Ok <==> composed_uri(base2, target) is Ok,
        composed_uri(base1, target) is Ok ==> composed_uri(base1, target) == composed_uri(base2, target),
{
}

/// The request contributes only its path and query: two request URIs with
/// the same path and query compose the same URI against any endpoint.
pub proof fn lemma_request_scheme_and_authority_are_discarded(base: Seq<char>, target1: Seq<char>, target2: Seq<char>)
    requires
        uri_parts_of(target1) matches Some(t1) && uri_parts_of(target2) matches Some(t2)
            && t1.path_and_query == t2.path_and_query,
    ensures
        composed_uri(base, target1) is Ok <==> composed_uri(base, target2) is Ok,
        composed_uri(base, target1) is Ok ==> composed_uri(base, target1) == composed_uri(base, target2),
{
}


} // verus!
