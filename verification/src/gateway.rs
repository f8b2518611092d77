//! The proxy gateway: per-request planning and response mapping.
//!
//! A request is routed first: an unmatched path ends in a fixed not-found
//! answer and never reaches the auth gate or the backend. A matched route
//! passes the auth gate; only an authorized request yields an outbound
//! descriptor for the signer. The backend's answer is mapped back: a
//! success streams through with the route's media type, any other status
//! becomes a gateway-level failure with a generic body.

use vstd::prelude::*;
use vstd::string::*;
use vstd::utf8::encode_utf8;

use crate::auth::AuthDecision;
use crate::auth::authorize;
use crate::chain::ChainError;
use crate::signer::Method;
use crate::signer::RequestDescriptor;
use crate::signer::SignError;

verus! {

/// Where an inbound path leads.
#[derive(Debug, PartialEq, Eq)]
pub enum Route {
    /// Fetch one object by key.
    Download(String),
    /// Fetch the bucket listing.
    List,
    /// No route matches the path.
    Unmatched,
}

/// Which matched route a forwarded request serves.
#[derive(Debug, PartialEq, Eq, Structural, Clone, Copy)]
pub enum RouteKind {
    /// An object fetch.
    Download,
    /// A bucket listing.
    List,
}

/// The path prefix of object fetches.
pub open spec fn download_prefix() -> Seq<char> {
    "/download/"@
}

/// An object key is one non-empty path segment: no separator inside it.
pub open spec fn valid_key(key: Seq<char>) -> bool {
    key.len() > 0 && (forall|i: int| 0 <= i < key.len() ==> key[i] != '/')
}

/// Whether a path names an object fetch: the download prefix followed by
/// one valid key segment.
pub open spec fn is_download_path(path: Seq<char>) -> bool {
    &&& path.len() > download_prefix().len()
    &&& path.subrange(0, download_prefix().len() as int) == download_prefix()
    &&& valid_key(path.skip(download_prefix().len() as int))
}

/// The key named by a download path.
pub open spec fn download_key(path: Seq<char>) -> Seq<char> {
    path.skip(download_prefix().len() as int)
}

/// Whether any route matches a path.
pub open spec fn route_matched(path: Seq<char>) -> bool {
    path == "/list"@ || is_download_path(path)
}

/// Match an inbound path against the routing table.
pub fn match_route(path: &String) -> (r: Route)
    ensures
        path@ == "/list"@ ==> r == Route::List,
        is_download_path(path@) ==> (r matches Route::Download(k) && k@ == download_key(path@)),
        !route_matched(path@) ==> r == Route::Unmatched,
{
    proof {
        reveal_strlit("/list");
        reveal_strlit("/download/");
    }
    let list = String::from_str("/list");
    if path.eq(&list) {
        return Route::List;
    }
    let p = path.as_str();
    let n = p.unicode_len();
    if n <= 10 {
        return Route::Unmatched;
    }
    let prefix = "/download/";
    let mut i: usize = 0;
    while i < 10
        invariant
            n == path@.len(),
            n > 10,
            i <= 10,
            p@ == path@,
            path@ != "/list"@,
            prefix@ == download_prefix(),
            download_prefix().len() == 10,
            forall|j: int| 0 <= j < i ==> path@[j] == download_prefix()[j],
        decreases 10 - i,
    {
        if p.get_char(i) != prefix.get_char(i) {
            proof {
                assert(path@.subrange(0, 10)[i as int] == path@[i as int]);
            }
            return Route::Unmatched;
        }
        i = i + 1;
    }
    proof {
        assert(path@.subrange(0, 10) =~= download_prefix());
    }
    let mut k: usize = 10;
    while k < n
        invariant
            n == path@.len(),
            n > 10,
            10 <= k <= n,
            p@ == path@,
            path@ != "/list"@,
            download_prefix().len() == 10,
            forall|j: int| 10 <= j < k ==> path@[j] != '/',
        decreases n - k,
    {
        if p.get_char(k) == '/' {
            proof {
                assert(path@.skip(10)[k - 10] == '/');
            }
            return Route::Unmatched;
        }
        k = k + 1;
    }
    let key = p.substring_char(10, n).to_owned();
    proof {
        assert(key@ =~= path@.skip(10));
        assert(forall|j: int|
            0 <= j < path@.skip(10).len() ==> path@.skip(10)[j] == path@[j + 10] && path@[j + 10]
                != '/');
    }
    Route::Download(key)
}

/// Configuration the gateway is constructed with, immutable afterwards.
#[derive(Debug, PartialEq, Eq)]
pub struct GatewayConfig {
    /// The bearer token inbound callers must present; without one every
    /// request is refused, never let through.
    pub expected_token: Option<String>,
    /// Host of the object-storage endpoint.
    pub host: String,
    /// Namespace the bucket lives in.
    pub namespace: String,
    /// The bucket the gateway serves.
    pub bucket: String,
}

/// The backend path of one object.
pub open spec fn object_path_spec(ns: Seq<char>, bucket: Seq<char>, key: Seq<char>) -> Seq<char> {
    "/n/"@ + ns + "/b/"@ + bucket + "/o/"@ + key
}

/// The backend path of the bucket listing.
pub open spec fn list_path_spec(ns: Seq<char>, bucket: Seq<char>) -> Seq<char> {
    "/n/"@ + ns + "/b/"@ + bucket + "/o"@
}

/// Build the backend path of one object.
pub fn build_object_path(ns: &String, bucket: &String, key: &String) -> (r: String)
    ensures
        r@ == object_path_spec(ns@, bucket@, key@),
{
    let mut s = String::from_str("/n/");
    s.append(ns.as_str());
    s.append("/b/");
    s.append(bucket.as_str());
    s.append("/o/");
    s.append(key.as_str());
    proof {
        assert(s@ =~= object_path_spec(ns@, bucket@, key@));
    }
    s
}

/// Build the backend path of the bucket listing.
pub fn build_list_path(ns: &String, bucket: &String) -> (r: String)
    ensures
        r@ == list_path_spec(ns@, bucket@),
{
    let mut s = String::from_str("/n/");
    s.append(ns.as_str());
    s.append("/b/");
    s.append(bucket.as_str());
    s.append("/o");
    proof {
        assert(s@ =~= list_path_spec(ns@, bucket@));
    }
    s
}

/// The backend path of one object under a scoped token: the token is a
/// pre-authenticated capability embedded in the URL, so the request needs
/// no per-request signing. This is the alternative outbound strategy to
/// direct signing, selected by configuration.
pub open spec fn scoped_object_path_spec(
    token: Seq<char>,
    ns: Seq<char>,
    bucket: Seq<char>,
    key: Seq<char>,
) -> Seq<char> {
    "/p/"@ + token + "/n/"@ + ns + "/b/"@ + bucket + "/o/"@ + key
}

/// Build the backend path of one object under a scoped token.
pub fn build_scoped_object_path(token: &String, ns: &String, bucket: &String, key: &String) -> (r:
    String)
    ensures
        r@ == scoped_object_path_spec(token@, ns@, bucket@, key@),
{
    let mut s = String::from_str("/p/");
    s.append(token.as_str());
    s.append("/n/");
    s.append(ns.as_str());
    s.append("/b/");
    s.append(bucket.as_str());
    s.append("/o/");
    s.append(key.as_str());
    proof {
        assert(s@ =~= scoped_object_path_spec(token@, ns@, bucket@, key@));
    }
    s
}

/// The answer the gateway hands back to the inbound caller.
#[derive(Debug, PartialEq, Eq)]
pub struct GatewayResponse {
    /// HTTP status of the answer.
    pub status: u16,
    /// Media type of the body, where one is declared.
    pub content_type: Option<String>,
    /// Body of the answer.
    pub body: Vec<u8>,
}

/// What the gateway decided to do with one inbound request: answer it
/// directly, or forward a descriptor to the signer and the backend.
#[derive(Debug, PartialEq, Eq)]
pub enum Plan {
    /// Answer without any backend work.
    Respond(GatewayResponse),
    /// Sign this descriptor and forward it; the kind picks the media type
    /// of the mapped answer.
    Forward(RequestDescriptor, RouteKind),
}

/// Body of the fixed not-found answer.
pub open spec fn not_found_body() -> Seq<u8> {
    encode_utf8("404 - Route not found"@)
}

/// Body of the unauthorized answer.
pub open spec fn unauthorized_body() -> Seq<u8> {
    encode_utf8("Invalid auth token."@)
}

/// Body of the fail-closed answer when no inbound secret is configured.
pub open spec fn misconfigured_body() -> Seq<u8> {
    encode_utf8("Server misconfiguration."@)
}

/// Whether the inbound caller is authorized under a configuration.
pub open spec fn authorized_spec(cfg: GatewayConfig, bearer: Option<String>) -> bool {
    &&& cfg.expected_token is Some
    &&& bearer is Some
    &&& bearer->Some_0@ == cfg.expected_token->Some_0@
}

/// Decide one inbound request: route it, pass it through the auth gate,
/// and either answer it directly or emit the outbound descriptor.
///
/// An unmatched path is answered not-found whatever the auth header says,
/// and a request with a missing or wrong token never yields an outbound descriptor:
/// nothing unauthorized reaches the backend.
pub fn plan_request(cfg: &GatewayConfig, path: &String, bearer: &Option<String>) -> (p: Plan)
    ensures
        !route_matched(path@) ==> (p matches Plan::Respond(resp) && resp.status == 404
            && resp.body@ == not_found_body() && resp.content_type is None),
        route_matched(path@) && cfg.expected_token is None ==> (p matches Plan::Respond(resp)
            && resp.status == 500 && resp.body@ == misconfigured_body()),
        route_matched(path@) && cfg.expected_token is Some && !authorized_spec(*cfg, *bearer) ==> (
        p matches Plan::Respond(resp) && resp.status == 401 && resp.body@ == unauthorized_body()),
        p is Forward ==> authorized_spec(*cfg, *bearer),
        route_matched(path@) && authorized_spec(*cfg, *bearer) ==> p is Forward,
        p matches Plan::Forward(desc, kind) ==> {
            &&& desc.method == Method::Get
            &&& desc.host == cfg.host
            &&& (path@ == "/list"@ ==> kind == RouteKind::List && desc.path_and_query@
                == list_path_spec(cfg.namespace@, cfg.bucket@))
            &&& (is_download_path(path@) ==> kind == RouteKind::Download && desc.path_and_query@
                == object_path_spec(cfg.namespace@, cfg.bucket@, download_key(path@)))
        },
{
    proof {
        reveal_strlit("/list");
        reveal_strlit("/download/");
    }
    let route = match_route(path);
    match route {
        Route::Unmatched => Plan::Respond(
            GatewayResponse {
                status: 404,
                content_type: None,
                body: "404 - Route not found".as_bytes_vec(),
            },
        ),
        Route::List => match authorize(&cfg.expected_token, bearer) {
            AuthDecision::Misconfigured => Plan::Respond(
                GatewayResponse {
                    status: 500,
                    content_type: None,
                    body: "Server misconfiguration.".as_bytes_vec(),
                },
            ),
            AuthDecision::Rejected => Plan::Respond(
                GatewayResponse {
                    status: 401,
                    content_type: None,
                    body: "Invalid auth token.".as_bytes_vec(),
                },
            ),
            AuthDecision::Authorized => Plan::Forward(
                RequestDescriptor {
                    method: Method::Get,
                    host: cfg.host.clone(),
                    path_and_query: build_list_path(&cfg.namespace, &cfg.bucket),
                },
                RouteKind::List,
            ),
        },
        Route::Download(key) => match authorize(&cfg.expected_token, bearer) {
            AuthDecision::Misconfigured => Plan::Respond(
                GatewayResponse {
                    status: 500,
                    content_type: None,
                    body: "Server misconfiguration.".as_bytes_vec(),
                },
            ),
            AuthDecision::Rejected => Plan::Respond(
                GatewayResponse {
                    status: 401,
                    content_type: None,
                    body: "Invalid auth token.".as_bytes_vec(),
                },
            ),
            AuthDecision::Authorized => Plan::Forward(
                RequestDescriptor {
                    method: Method::Get,
                    host: cfg.host.clone(),
                    path_and_query: build_object_path(&cfg.namespace, &cfg.bucket, &key),
                },
                RouteKind::Download,
            ),
        },
    }
}

/// What the backend answered: status and raw body.
#[derive(Debug, PartialEq, Eq)]
pub struct BackendResponse {
    /// HTTP status the backend answered with.
    pub status: u16,
    /// Raw body bytes.
    pub body: Vec<u8>,
}

/// A backend answer streams through only below the client- and
/// server-error range.
pub open spec fn backend_success(status: u16) -> bool {
    status < 400
}

/// Body of the failure answer for each route kind.
pub open spec fn backend_failure_body(kind: RouteKind) -> Seq<u8> {
    match kind {
        RouteKind::Download => encode_utf8("Failed to download PDF"@),
        RouteKind::List => encode_utf8("Failed to list PDFs"@),
    }
}

/// Media type of a successful answer for each route kind.
pub open spec fn success_content_type(kind: RouteKind) -> Seq<char> {
    match kind {
        RouteKind::Download => "application/pdf"@,
        RouteKind::List => "application/json"@,
    }
}

/// Map the backend's answer to the gateway's: a success streams the body
/// through under the route's media type; any other status becomes a
/// gateway-level failure with a generic body, never a crash, and never a
/// body that echoes credentials.
pub fn map_backend_response(kind: RouteKind, resp: BackendResponse) -> (r: GatewayResponse)
    ensures
        backend_success(resp.status) ==> r.status == 200 && r.body == resp.body && (
        r.content_type matches Some(ct) && ct@ == success_content_type(kind)),
        !backend_success(resp.status) ==> r.status == 502 && r.content_type is None && r.body@
            == backend_failure_body(kind),
{
    if resp.status < 400 {
        let ct = match kind {
            RouteKind::Download => String::from_str("application/pdf"),
            RouteKind::List => String::from_str("application/json"),
        };
        GatewayResponse { status: 200, content_type: Some(ct), body: resp.body }
    } else {
        let body = match kind {
            RouteKind::Download => "Failed to download PDF".as_bytes_vec(),
            RouteKind::List => "Failed to list PDFs".as_bytes_vec(),
        };
        GatewayResponse { status: 502, content_type: None, body }
    }
}

/// Everything that can go wrong on the way to an answer, at the gateway
/// boundary.
#[derive(Debug, PartialEq, Eq)]
pub enum GatewayError {
    /// The inbound bearer token was missing or wrong.
    AuthRejected,
    /// The server lacks its inbound secret or credential configuration.
    ServerMisconfigured,
    /// The credential chain was exhausted or failed hard.
    CredentialChain(ChainError),
    /// Signing the outbound request failed.
    SigningFailed(SignError),
    /// The scoped-token fetch failed; the cache was left unchanged.
    SecretUnavailable(String),
    /// The backend answered with the carried non-success status.
    BackendError(u16),
    /// No route matches the inbound path.
    NotFound,
}

/// The status each gateway error surfaces as.
pub open spec fn error_status_spec(e: GatewayError) -> u16 {
    match e {
        GatewayError::AuthRejected => 401,
        GatewayError::ServerMisconfigured => 500,
        GatewayError::CredentialChain(_) => 502,
        GatewayError::SigningFailed(_) => 502,
        GatewayError::SecretUnavailable(_) => 502,
        GatewayError::BackendError(_) => 502,
        GatewayError::NotFound => 404,
    }
}

/// Map a gateway error to the status it surfaces as: credential, signing,
/// secret and backend failures all look alike to the caller, and carry no
/// detail out.
pub fn error_status(e: &GatewayError) -> (s: u16)
    ensures
        s == error_status_spec(*e),
{
    match e {
        GatewayError::AuthRejected => 401,
        GatewayError::ServerMisconfigured => 500,
        GatewayError::CredentialChain(_) => 502,
        GatewayError::SigningFailed(_) => 502,
        GatewayError::SecretUnavailable(_) => 502,
        GatewayError::BackendError(_) => 502,
        GatewayError::NotFound => 404,
    }
}

} // verus!
