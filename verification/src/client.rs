//! The generic REST client: path construction, request planning (URL,
//! bearer header, content type), response classification, in-cluster
//! bootstrap decisions, and client construction, together with the
//! request-time and construction-time error taxonomies.
use vstd::prelude::*;

use crate::api::KubeKind;
use crate::config::{AuthConfig, ClientConfig, FileRead};
use crate::encoding::{spec_utf8_lossy, utf8_lossy};
use crate::http::{
    builder_add_root_certificate, builder_build, client_builder, first_certificate_of_pem,
    response_status, spec_ca_parses,
};

verus! {

// The names and locations of the in-cluster runtime configuration
// parameters.
pub const INCLUSTER_CA_FILE: &'static str = "/var/run/secrets/kubernetes.io/serviceaccount/ca.crt";

pub const INCLUSTER_TOKEN_FILE: &'static str =
    "/var/run/secrets/kubernetes.io/serviceaccount/token";

pub const INCLUSTER_API_HOST_NAME: &'static str = "KUBERNETES_SERVICE_HOST";

pub const INCLUSTER_API_PORT_NAME: &'static str = "KUBERNETES_SERVICE_PORT";

/// The media type every patch request carries.
pub const STRATEGIC_MERGE_PATCH_CONTENT_TYPE: &'static str =
    "application/strategic-merge-patch+json";

/// The base HTTPS URL for the given host and port: IPv6 literal hosts
/// (those containing `:` or `%`) are bracket-wrapped, any other host is
/// joined as it stands.
pub open spec fn spec_join_host_port(host: Seq<char>, port: Seq<char>) -> Seq<char> {
    if host.contains(':') || host.contains('%') {
        "https://["@ + host + "]:"@ + port
    } else {
        "https://"@ + host + ":"@ + port
    }
}

/// Whether the character `c` occurs in `s`.
fn str_contains_char(s: &str, c: char) -> (r: bool)
    ensures
        r == s@.contains(c),
{
    let n = s.unicode_len();
    let mut i: usize = 0;
    while i < n
        invariant
            n == s@.len(),
            i <= n,
            forall|j: int| 0 <= j < i ==> s@[j] != c,
        decreases n - i,
    {
        if s.get_char(i) == c {
            return true;
        }
        i = i + 1;
    }
    false
}

/// Whether two string slices hold the same characters.
fn str_eq(a: &str, b: &str) -> (r: bool)
    ensures
        r == (a@ == b@),
{
    let an = a.unicode_len();
    let bn = b.unicode_len();
    if an != bn {
        return false;
    }
    let mut i: usize = 0;
    while i < an
        invariant
            an == a@.len(),
            an == b@.len(),
            i <= an,
            forall|j: int| 0 <= j < i ==> a@[j] == b@[j],
        decreases an - i,
    {
        if a.get_char(i) != b.get_char(i) {
            return false;
        }
        i = i + 1;
    }
    proof {
        assert(a@ =~= b@);
    }
    true
}

/// Produces a base HTTPS URL from the given host and port.
pub fn join_host_port(host: &str, port: &str) -> (r: String)
    ensures
        r@ == spec_join_host_port(host@, port@),
{
    let ipv6 = str_contains_char(host, ':') || str_contains_char(host, '%');
    let mut url = String::new();
    if ipv6 {
        url.append("https://[");
        url.append(host);
        url.append("]:");
        url.append(port);
    } else {
        url.append("https://");
        url.append(host);
        url.append(":");
        url.append(port);
    }
    url
}

/// The view of an optional string slice.
pub open spec fn spec_opt_str(s: Option<&str>) -> Option<Seq<char>> {
    match s {
        Some(s) => Some(s@),
        None => None,
    }
}

/// The API root segment: `api/<version>` for the core group,
/// `apis/<group>/<version>` for every other group.
pub open spec fn spec_api_root(group: Seq<char>, version: Seq<char>) -> Seq<char> {
    if group == "core"@ {
        "api/"@ + version
    } else {
        "apis/"@ + group + "/"@ + version
    }
}

/// The namespace segment, inserted immediately after the API root when a
/// namespace is supplied.
pub open spec fn spec_namespace_segment(namespace: Option<Seq<char>>) -> Seq<char> {
    match namespace {
        Some(ns) => "namespaces/"@ + ns + "/"@,
        None => Seq::empty(),
    }
}

/// The URL path addressing a resource kind, or one object of it:
/// `/{api|apis/<group>}/<version>/[namespaces/<ns>/]<kind>[/<name>]`.
pub open spec fn spec_build_path(
    group: Seq<char>,
    version: Seq<char>,
    kind_name: Seq<char>,
    namespace: Option<Seq<char>>,
    object: Option<Seq<char>>,
) -> Seq<char> {
    "/"@ + spec_api_root(group, version) + "/"@ + spec_namespace_segment(namespace) + kind_name
        + match object {
        Some(o) => "/"@ + o,
        None => Seq::empty(),
    }
}

/// Builds the URL path for a resource kind, an optional namespace, and an
/// optional object name. Namespace and name are caller-validated: no
/// characters are escaped here.
pub fn build_path(
    group: &str,
    version: &str,
    kind_name: &str,
    namespace: Option<&str>,
    object: Option<&str>,
) -> (r: String)
    ensures
        r@ == spec_build_path(group@, version@, kind_name@, spec_opt_str(namespace), spec_opt_str(object)),
{
    let mut path = String::new();
    path.append("/");
    if str_eq(group, "core") {
        path.append("api/");
        path.append(version);
    } else {
        path.append("apis/");
        path.append(group);
        path.append("/");
        path.append(version);
    }
    path.append("/");
    if let Some(ns) = namespace {
        path.append("namespaces/");
        path.append(ns);
        path.append("/");
    }
    path.append(kind_name);
    if let Some(obj) = object {
        path.append("/");
        path.append(obj);
    }
    proof {
        assert(path@ =~= spec_build_path(
            group@,
            version@,
            kind_name@,
            spec_opt_str(namespace),
            spec_opt_str(object),
        ));
    }
    path
}

/// Builds the URL path for the resource kind `T`, from the metadata its
/// capability carries.
pub fn produce_path<T: KubeKind>(namespace: Option<&str>, object: Option<&str>) -> (r: String)
    ensures
        r@ == spec_build_path(
            T::spec_api_group(),
            T::spec_api_version(),
            T::spec_kind_name(),
            spec_opt_str(namespace),
            spec_opt_str(object),
        ),
{
    build_path(T::api_group(), T::api_version(), T::kind_name(), namespace, object)
}

/// An HTTP request method, as far as the client uses them.
#[derive(Clone, Copy, Debug, PartialEq, Eq, Structural)]
pub enum Method {
    Get,
    Post,
    Put,
    Patch,
    Delete,
}

/// An error that can occur during a call to the API.
#[derive(Debug)]
pub enum RequestError {
    /// A low-level transport failure: no response exists.
    TransportError(reqwest::Error),
    /// A response was received but its status indicates failure; the raw
    /// response is handed back for inspection, never decoded.
    HttpError(reqwest::blocking::Response),
    /// The status indicated success but the body could not be decoded.
    SerdeError(serde_json::Error),
    /// Other miscellaneous error; reserved and unused.
    MiscError,
}

impl RequestError {
    /// A short description of the error class.
    pub fn description(&self) -> (r: &'static str)
        ensures
            match self {
                RequestError::TransportError(_) => r@
                    == "There was an error during the HTTP request"@,
                RequestError::HttpError(_) => r@
                    == "Received an unexpected response from the Kubernetes API"@,
                RequestError::SerdeError(_) => r@
                    == "Error during deserialization of response body"@,
                RequestError::MiscError => r@
                    == "Unknown, miscellaneous error (shouldn't happen)"@,
            },
    {
        match self {
            RequestError::TransportError(_) => "There was an error during the HTTP request",
            RequestError::HttpError(_) => "Received an unexpected response from the Kubernetes API",
            RequestError::SerdeError(_) => "Error during deserialization of response body",
            RequestError::MiscError => "Unknown, miscellaneous error (shouldn't happen)",
        }
    }
}

pub type RequestResult<T> = Result<T, RequestError>;

/// An error during client initialization; each variant identifies which
/// bootstrap step failed.
#[derive(Debug)]
pub enum ClientInitError {
    /// The environment variable that was being looked up, and the reason
    /// the lookup failed.
    EnvVarError(String, String),
    /// A file could not be read; carries the reason.
    IoError(String),
    /// The certificate data could not be parsed; carries the reason.
    InvalidCert(String),
    /// The underlying HTTP client could not be built.
    ClientBuildingError(reqwest::Error),
}

/// The outcome of an environment variable lookup, as handed in by the
/// caller: the value, or the reason the lookup failed.
pub enum EnvLookup {
    Present(String),
    Absent(String),
}

/// Combines the in-cluster service host and port lookups into the API
/// base URL. A missing host short-circuits before anything else is
/// looked at; then a missing port; only with both present is a URL
/// produced.
pub fn incluster_base_url(host: EnvLookup, port: EnvLookup) -> (r: Result<String, ClientInitError>)
    ensures
        host matches EnvLookup::Absent(cause) ==> (r matches Err(
            ClientInitError::EnvVarError(name, c),
        ) && name@ == "KUBERNETES_SERVICE_HOST"@ && c == cause),
        host is Present ==> (port matches EnvLookup::Absent(cause) ==> (r matches Err(
            ClientInitError::EnvVarError(name, c),
        ) && name@ == "KUBERNETES_SERVICE_PORT"@ && c == cause)),
        host matches EnvLookup::Present(h) ==> (port matches EnvLookup::Present(p) ==> (r matches
            Ok(url) && url@ == spec_join_host_port(h@, p@))),
{
    let h = match host {
        EnvLookup::Present(h) => h,
        EnvLookup::Absent(cause) => {
            return Err(
                ClientInitError::EnvVarError(String::from_str(INCLUSTER_API_HOST_NAME), cause),
            );
        },
    };
    let p = match port {
        EnvLookup::Present(p) => p,
        EnvLookup::Absent(cause) => {
            return Err(
                ClientInitError::EnvVarError(String::from_str(INCLUSTER_API_PORT_NAME), cause),
            );
        },
    };
    Ok(join_host_port(h.as_str(), p.as_str()))
}

/// Turns the in-cluster base URL and the two mounted files (bearer token
/// and CA certificate) into an external connection configuration: the
/// in-cluster bootstrap is sugar over external construction. An
/// unreadable token file fails first, then an unreadable CA file, then a
/// CA whose bytes hold no well-formed PEM certificate; with a readable
/// token and a parsing CA, construction succeeds.
pub fn incluster_config(api_url: String, token_file: FileRead, ca_file: FileRead) -> (r: Result<
    ClientConfig,
    ClientInitError,
>)
    ensures
        token_file matches FileRead::Unreadable(cause) ==> (r matches Err(
            ClientInitError::IoError(c),
        ) && c == cause),
        token_file is Contents ==> (ca_file matches FileRead::Unreadable(cause) ==> (r matches Err(
            ClientInitError::IoError(c),
        ) && c == cause)),
        token_file is Contents ==> (ca_file matches FileRead::Contents(ca_pem) ==> (r is Ok
            <==> spec_ca_parses(ca_pem@))),
        token_file is Contents ==> (ca_file matches FileRead::Contents(ca_pem) ==> (
        !spec_ca_parses(ca_pem@) ==> (r matches Err(ClientInitError::InvalidCert(c)) && c@
            == "the CA certificate data does not hold a PEM certificate"@))),
        token_file matches FileRead::Contents(token) ==> (r matches Ok(cc) ==> (cc matches
            ClientConfig::External { api_url: u, auth_info, ca } && u@ == api_url@ && (auth_info
            matches AuthConfig::Token(t) && t@ == spec_utf8_lossy(token@)) && ca is Some)),
{
    let token_bytes = match token_file {
        FileRead::Contents(bytes) => bytes,
        FileRead::Unreadable(cause) => {
            return Err(ClientInitError::IoError(cause));
        },
    };
    let ca_bytes = match ca_file {
        FileRead::Contents(bytes) => bytes,
        FileRead::Unreadable(cause) => {
            return Err(ClientInitError::IoError(cause));
        },
    };
    let ca = match first_certificate_of_pem(&ca_bytes) {
        Some(cert) => cert,
        None => {
            return Err(
                ClientInitError::InvalidCert(
                    String::from_str("the CA certificate data does not hold a PEM certificate"),
                ),
            );
        },
    };
    let token = utf8_lossy(&token_bytes);
    Ok(
        ClientConfig::External {
            api_url,
            auth_info: AuthConfig::Token(token),
            ca: Some(ca),
        },
    )
}

/// The header value for bearer token authentication.
pub open spec fn spec_bearer_header(token: Seq<char>) -> Seq<char> {
    "Bearer "@ + token
}

/// The bearer header determines the token: two tokens that emit the same
/// header are the same token, so nothing is trimmed or escaped away on
/// the way into the header.
pub proof fn lemma_bearer_header_injective(t1: Seq<char>, t2: Seq<char>)
    requires
        spec_bearer_header(t1) == spec_bearer_header(t2),
    ensures
        t1 == t2,
{
    assert(("Bearer "@ + t1).len() == ("Bearer "@ + t2).len());
    assert(t1.len() == t2.len());
    assert forall|i: int| 0 <= i < t1.len() implies t1[i] == t2[i] by {
        assert(("Bearer "@ + t1)[i + "Bearer "@.len()] == t1[i]);
        assert(("Bearer "@ + t2)[i + "Bearer "@.len()] == t2[i]);
    }
    assert(t1 =~= t2);
}

/// The value of the `Authorization` header for the chosen authentication
/// mechanism. Only bearer tokens are implemented: any other mechanism is
/// outside this function's domain, and a caller holding one must fail
/// loudly rather than send the request without authentication.
pub fn authorization_header(auth_info: &AuthConfig) -> (r: String)
    requires
        auth_info is Token,
    ensures
        auth_info matches AuthConfig::Token(t) ==> r@ == spec_bearer_header(t@),
{
    match auth_info {
        AuthConfig::Token(bearer) => {
            let mut header = String::new();
            header.append("Bearer ");
            header.append(bearer.as_str());
            header
        },
        _ => unreached(),
    }
}

/// Whether an HTTP status code indicates success: exactly the 2xx range.
pub open spec fn spec_is_success(status: u16) -> bool {
    200 <= status < 300
}

/// Classifies an HTTP status code. Exactly the 2xx range counts as
/// success; for every other status the caller must treat the response as
/// an error and never attempt to decode its body.
pub fn status_is_success(status: u16) -> (r: bool)
    ensures
        r == spec_is_success(status),
{
    200 <= status && status < 300
}

/// Applies the status rule to a received response: a success status
/// hands the raw response back for decoding; any other status wraps that
/// same response in `HttpError`, untouched, so its body is never decoded.
pub fn classify_by_status(status: u16, response: reqwest::blocking::Response) -> (r: Result<
    reqwest::blocking::Response,
    RequestError,
>)
    ensures
        spec_is_success(status) ==> (r matches Ok(out) && out == response),
        !spec_is_success(status) ==> (r matches Err(RequestError::HttpError(out)) && out
            == response),
{
    if status_is_success(status) {
        Ok(response)
    } else {
        Err(RequestError::HttpError(response))
    }
}

/// Classifies the outcome of a request: a transport failure becomes
/// `TransportError` carrying that failure unchanged; a received response
/// is classified by its status code through `classify_by_status`, which
/// pins the rule over the status as a plain value.
pub fn classify_response(result: Result<reqwest::blocking::Response, reqwest::Error>) -> (r: Result<
    reqwest::blocking::Response,
    RequestError,
>)
    ensures
        result matches Err(e) ==> (r matches Err(RequestError::TransportError(out)) && out == e),
        result matches Ok(resp) ==> ({
            ||| (r matches Ok(out) && out == resp)
            ||| (r matches Err(RequestError::HttpError(out)) && out == resp)
        }),
{
    match result {
        Err(error) => Err(RequestError::TransportError(error)),
        Ok(response) => {
            let status = response_status(&response);
            classify_by_status(status, response)
        },
    }
}

/// Everything a single API request needs besides its body: the method,
/// the full URL, the authorization header value, and the content type to
/// override with, if any.
pub struct RequestPlan {
    pub method: Method,
    pub url: String,
    pub authorization: String,
    pub content_type: Option<&'static str>,
}

/// The client: a configured HTTP transport, the API base URL, and the
/// chosen authentication mechanism. Immutable after construction.
pub struct KubeClient {
    pub auth_info: AuthConfig,
    pub api_url: String,
    pub client: reqwest::blocking::Client,
}

impl KubeClient {
    /// Builds a client from an external connection configuration: a CA,
    /// when present, is registered as an additional trusted root before
    /// the transport is finalized; a transport-build failure surfaces as
    /// `ClientBuildingError`. The in-cluster variant is resolved by the
    /// caller first (environment and mounted files), through
    /// `incluster_base_url` and `incluster_config`.
    pub fn new(config: ClientConfig) -> (r: Result<KubeClient, ClientInitError>)
        requires
            config is External,
        ensures
            r is Err ==> r matches Err(ClientInitError::ClientBuildingError(_)),
            config matches ClientConfig::External { api_url, auth_info, ca } ==> (r matches Ok(c)
                ==> (c.api_url == api_url && c.auth_info == auth_info)),
    {
        match config {
            ClientConfig::External { api_url, auth_info, ca } => {
                let mut builder = client_builder();
                if let Some(cert) = ca {
                    builder = builder_add_root_certificate(builder, cert);
                }
                match builder_build(builder) {
                    Ok(client) => Ok(KubeClient { auth_info, api_url, client }),
                    Err(error) => Err(ClientInitError::ClientBuildingError(error)),
                }
            },
            ClientConfig::InCluster => unreached(),
        }
    }

    /// The transport the client owns, for the caller that performs the
    /// planned request.
    pub fn transport(&self) -> &reqwest::blocking::Client {
        &self.client
    }

    /// Plans a request against the given path: the full URL is the base
    /// URL followed by the path, the authorization header carries the
    /// bearer token, and a patch carries the strategic-merge-patch
    /// content type — every other method leaves the content type alone.
    pub fn request_plan(&self, method: Method, path: &str) -> (r: RequestPlan)
        requires
            self.auth_info is Token,
        ensures
            r.method == method,
            r.url@ == self.api_url@ + path@,
            self.auth_info matches AuthConfig::Token(t) ==> r.authorization@ == spec_bearer_header(
                t@,
            ),
            method is Patch <==> (r.content_type matches Some(ct) && ct@
                == "application/strategic-merge-patch+json"@),
            !(method is Patch) ==> r.content_type is None,
    {
        let mut url = self.api_url.clone();
        url.append(path);
        let authorization = authorization_header(&self.auth_info);
        let content_type = if method == Method::Patch {
            Some(STRATEGIC_MERGE_PATCH_CONTENT_TYPE)
        } else {
            None
        };
        RequestPlan { method, url, authorization, content_type }
    }
}

} // verus!
