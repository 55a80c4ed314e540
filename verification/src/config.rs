//! Connection configuration: the kubeconfig data model, the resolver that
//! turns a kubeconfig plus an optional context override into a fully
//! resolved connection configuration, and the authentication data it yields.
use vstd::prelude::*;

use crate::encoding::{base64_decode, spec_base64_decoded};
use crate::http::{first_certificate_of_pem, spec_ca_parses};

verus! {

/// The configuration a client is built from: either "running inside the
/// cluster" (environment and mounted files supply everything), or an
/// externally resolved API endpoint with authentication data and an
/// optional extra root certificate for the transport.
pub enum ClientConfig {
    InCluster,
    External { api_url: String, auth_info: AuthConfig, ca: Option<reqwest::Certificate> },
}

/// A failure while resolving a kubeconfig into a `ClientConfig`. Each
/// variant names the missing or invalid reference.
#[derive(Debug)]
pub enum KubeconfigParseError {
    MissingContext(String),
    MissingUser(String),
    MissingCluster(String),
    MissingFile(String),
    InvalidCertificate(String),
}

/// A chosen authentication mechanism. Only bearer tokens are implemented;
/// the other variants are a documented extension point and must fail
/// loudly when selected, never silently degrade to no authentication.
#[derive(Clone)]
pub enum AuthConfig {
    Token(String),
    ClientCertificate,
    BasicAuth,
}

impl AuthConfig {
    /// A short description of the chosen mechanism. Only token
    /// authentication is implemented; holders of any other variant must
    /// fail loudly instead of describing it.
    pub fn description(&self) -> (r: &'static str)
        requires
            self is Token,
        ensures
            r@ == "Token authentication"@,
    {
        match self {
            AuthConfig::Token(_) => "Token authentication",
            _ => unreached(),
        }
    }

    /// Derives the authentication mechanism from a kubeconfig user entry.
    /// Only token authentication is supported; entries without a token are
    /// outside this function's domain and the caller must reject them.
    pub fn from_kubeconfig_user(user: &AuthInfo) -> (r: AuthConfig)
        requires
            user.token is Some,
        ensures
            r matches AuthConfig::Token(t) && t@ == user.token->0@,
    {
        match &user.token {
            Some(token) => AuthConfig::Token(token.clone()),
            None => unreached(),
        }
    }
}

/// The outcome of an attempt to read a file, as handed in by the caller:
/// the file's bytes, or the reason it could not be read.
pub enum FileRead {
    Contents(Vec<u8>),
    Unreadable(String),
}

/// Whether the CA material a cluster entry names is acceptable: inline
/// base64 data must decode to bytes holding a PEM certificate; a named
/// file must have been read and its bytes hold a PEM certificate; a
/// cluster naming no CA always is.
pub open spec fn spec_ca_accepted(cluster: Cluster, ca_file: Option<FileRead>) -> bool {
    match cluster.certificate_authority_data {
        Some(data) => spec_base64_decoded(data@) matches Some(pem) && spec_ca_parses(pem),
        None => match cluster.certificate_authority {
            Some(_) => ca_file matches Some(FileRead::Contents(bytes)) && spec_ca_parses(bytes@),
            None => true,
        },
    }
}

impl ClientConfig {
    /// Assembles the external connection configuration from the entries a
    /// kubeconfig context selected. The caller reads the certificate file
    /// the cluster entry names, if any, and hands its contents in as
    /// `ca_file`; inline base64 certificate data is decoded here. It
    /// succeeds exactly when the named CA material is acceptable.
    pub fn from_kubeconfig(resolved: ResolvedContext<'_>, ca_file: Option<FileRead>) -> (r: Result<
        ClientConfig,
        KubeconfigParseError,
    >)
        requires
            resolved.user.token is Some,
        ensures
            r is Ok <==> spec_ca_accepted(*resolved.cluster, ca_file),
            r matches Ok(cc) ==> {
                &&& cc matches ClientConfig::External { api_url, auth_info, ca }
                &&& api_url@ == resolved.cluster.server@
                &&& auth_info matches AuthConfig::Token(t) && t@ == resolved.user.token->0@
                &&& (ca is Some <==> (resolved.cluster.certificate_authority_data is Some
                    || resolved.cluster.certificate_authority is Some))
            },
            r is Err ==> (r matches Err(KubeconfigParseError::MissingFile(_)) || r matches Err(
                KubeconfigParseError::InvalidCertificate(_),
            )),
            (resolved.cluster.certificate_authority_data is None
                && resolved.cluster.certificate_authority is Some && !(ca_file matches Some(
                FileRead::Contents(_),
            ))) ==> (r matches Err(KubeconfigParseError::MissingFile(p)) && p@
                == resolved.cluster.certificate_authority->0@),
            r matches Err(KubeconfigParseError::MissingFile(_)) ==> (
            resolved.cluster.certificate_authority_data is None
                && resolved.cluster.certificate_authority is Some && !(ca_file matches Some(
                FileRead::Contents(_),
            ))),
            r matches Err(KubeconfigParseError::InvalidCertificate(p)) ==> ({
                ||| (resolved.cluster.certificate_authority_data is Some && p@
                    == "certificate-authority-data"@)
                ||| {
                    &&& resolved.cluster.certificate_authority_data is None
                    &&& resolved.cluster.certificate_authority matches Some(path) && p@ == path@
                    &&& ca_file matches Some(FileRead::Contents(_))
                }
            }),
    {
        let ca: Option<reqwest::Certificate> = if let Some(data) =
            &resolved.cluster.certificate_authority_data {
            // Inline base64 PEM data: decode it here; a blob that is not
            // base64 or does not hold a certificate is rejected, never
            // silently dropped.
            let pem = match base64_decode(data.as_str()) {
                Ok(pem) => pem,
                Err(_) => {
                    return Err(
                        KubeconfigParseError::InvalidCertificate(
                            String::from_str("certificate-authority-data"),
                        ),
                    );
                },
            };
            match first_certificate_of_pem(&pem) {
                Some(cert) => Some(cert),
                None => {
                    return Err(
                        KubeconfigParseError::InvalidCertificate(
                            String::from_str("certificate-authority-data"),
                        ),
                    );
                },
            }
        } else if let Some(path) = &resolved.cluster.certificate_authority {
            match ca_file {
                Some(FileRead::Contents(bytes)) => {
                    match first_certificate_of_pem(&bytes) {
                        Some(cert) => Some(cert),
                        None => {
                            return Err(KubeconfigParseError::InvalidCertificate(path.clone()));
                        },
                    }
                },
                _ => {
                    return Err(KubeconfigParseError::MissingFile(path.clone()));
                },
            }
        } else {
            None
        };
        Ok(
            ClientConfig::External {
                api_url: resolved.cluster.server.clone(),
                auth_info: AuthConfig::from_kubeconfig_user(resolved.user),
                ca,
            },
        )
    }
}

// The kubeconfig data model, as produced by an external YAML parser.
// It is read-only input: consumed once by the resolver and never retained.

pub struct Config {
    pub kind: String,
    pub api_version: String,
    pub preferences: Preferences,
    pub clusters: Vec<NamedCluster>,
    pub users: Vec<NamedAuthInfo>,
    pub contexts: Vec<NamedContext>,
    pub current_context: String,
}

pub struct Preferences {
    pub colors: Option<bool>,
}

pub struct Cluster {
    pub server: String,
    pub insecure_skip_tls_verify: Option<bool>,
    pub certificate_authority: Option<String>,
    pub certificate_authority_data: Option<String>,
}

pub struct NamedCluster {
    pub name: String,
    pub cluster: Cluster,
}

pub struct AuthInfo {
    pub client_certificate: Option<String>,
    pub client_certificate_data: Option<String>,
    pub client_key: Option<String>,
    pub client_key_data: Option<String>,
    pub token: Option<String>,
    pub token_file: Option<String>,
    pub impersonate: Option<String>,
    pub impersonate_groups: Option<Vec<String>>,
    pub username: Option<String>,
    pub password: Option<String>,
}

pub struct NamedAuthInfo {
    pub name: String,
    pub user: AuthInfo,
}

pub struct Context {
    pub cluster: String,
    pub user: String,
    pub namespace: Option<String>,
}

pub struct NamedContext {
    pub name: String,
    pub context: Context,
}

// The resolver looks entries up by name, taking the first entry whose name
// matches, as these spec functions state.

pub open spec fn spec_find_context(items: Seq<NamedContext>, name: Seq<char>) -> Option<NamedContext>
    decreases items.len(),
{
    if items.len() == 0 {
        None
    } else if items[0].name@ == name {
        Some(items[0])
    } else {
        spec_find_context(items.drop_first(), name)
    }
}

pub open spec fn spec_find_cluster(items: Seq<NamedCluster>, name: Seq<char>) -> Option<NamedCluster>
    decreases items.len(),
{
    if items.len() == 0 {
        None
    } else if items[0].name@ == name {
        Some(items[0])
    } else {
        spec_find_cluster(items.drop_first(), name)
    }
}

pub open spec fn spec_find_user(items: Seq<NamedAuthInfo>, name: Seq<char>) -> Option<NamedAuthInfo>
    decreases items.len(),
{
    if items.len() == 0 {
        None
    } else if items[0].name@ == name {
        Some(items[0])
    } else {
        spec_find_user(items.drop_first(), name)
    }
}

proof fn lemma_find_context_step(items: Seq<NamedContext>, name: Seq<char>, i: int)
    requires
        0 <= i < items.len(),
        forall|j: int| 0 <= j < i ==> items[j].name@ != name,
    ensures
        spec_find_context(items, name) == spec_find_context(items.skip(i), name),
    decreases i,
{
    if i > 0 {
        lemma_find_context_step(items, name, i - 1);
        assert(items.skip(i - 1).drop_first() =~= items.skip(i));
        assert(items.skip(i - 1)[0] == items[i - 1]);
    } else {
        assert(items.skip(0) =~= items);
    }
}

proof fn lemma_find_cluster_step(items: Seq<NamedCluster>, name: Seq<char>, i: int)
    requires
        0 <= i < items.len(),
        forall|j: int| 0 <= j < i ==> items[j].name@ != name,
    ensures
        spec_find_cluster(items, name) == spec_find_cluster(items.skip(i), name),
    decreases i,
{
    if i > 0 {
        lemma_find_cluster_step(items, name, i - 1);
        assert(items.skip(i - 1).drop_first() =~= items.skip(i));
        assert(items.skip(i - 1)[0] == items[i - 1]);
    } else {
        assert(items.skip(0) =~= items);
    }
}

proof fn lemma_find_user_step(items: Seq<NamedAuthInfo>, name: Seq<char>, i: int)
    requires
        0 <= i < items.len(),
        forall|j: int| 0 <= j < i ==> items[j].name@ != name,
    ensures
        spec_find_user(items, name) == spec_find_user(items.skip(i), name),
    decreases i,
{
    if i > 0 {
        lemma_find_user_step(items, name, i - 1);
        assert(items.skip(i - 1).drop_first() =~= items.skip(i));
        assert(items.skip(i - 1)[0] == items[i - 1]);
    } else {
        assert(items.skip(0) =~= items);
    }
}

proof fn lemma_find_context_none(items: Seq<NamedContext>, name: Seq<char>)
    requires
        forall|j: int| 0 <= j < items.len() ==> items[j].name@ != name,
    ensures
        spec_find_context(items, name) is None,
    decreases items.len(),
{
    if items.len() > 0 {
        assert(forall|j: int|
            0 <= j < items.drop_first().len() ==> items.drop_first()[j] == items[j + 1]);
        lemma_find_context_none(items.drop_first(), name);
    }
}

proof fn lemma_find_cluster_none(items: Seq<NamedCluster>, name: Seq<char>)
    requires
        forall|j: int| 0 <= j < items.len() ==> items[j].name@ != name,
    ensures
        spec_find_cluster(items, name) is None,
    decreases items.len(),
{
    if items.len() > 0 {
        assert(forall|j: int|
            0 <= j < items.drop_first().len() ==> items.drop_first()[j] == items[j + 1]);
        lemma_find_cluster_none(items.drop_first(), name);
    }
}

proof fn lemma_find_user_none(items: Seq<NamedAuthInfo>, name: Seq<char>)
    requires
        forall|j: int| 0 <= j < items.len() ==> items[j].name@ != name,
    ensures
        spec_find_user(items, name) is None,
    decreases items.len(),
{
    if items.len() > 0 {
        assert(forall|j: int|
            0 <= j < items.drop_first().len() ==> items.drop_first()[j] == items[j + 1]);
        lemma_find_user_none(items.drop_first(), name);
    }
}

/// The entries of a kubeconfig that a context selects: the context itself,
/// and the cluster and user it references.
pub struct ResolvedContext<'a> {
    pub context: &'a Context,
    pub cluster: &'a Cluster,
    pub user: &'a AuthInfo,
}

/// The context name `resolve` works from: the override when one is given,
/// else the kubeconfig's own current context.
pub open spec fn spec_selected_context_name(config: Config, context: Option<String>) -> Seq<char> {
    match context {
        Some(name) => name@,
        None => config.current_context@,
    }
}

impl Config {
    /// Looks the selected context up by name, then the cluster and user it
    /// references, failing with the first missing reference.
    pub fn resolve<'a>(&'a self, context: Option<String>) -> (r: Result<
        ResolvedContext<'a>,
        KubeconfigParseError,
    >)
        ensures
            ({
                let name = spec_selected_context_name(*self, context);
                match r {
                    Ok(resolved) => {
                        &&& spec_find_context(self.contexts@, name) matches Some(ctx)
                        &&& *resolved.context == ctx.context
                        &&& spec_find_cluster(self.clusters@, ctx.context.cluster@)
                            matches Some(cl) && *resolved.cluster == cl.cluster
                        &&& spec_find_user(self.users@, ctx.context.user@)
                            matches Some(u) && *resolved.user == u.user
                    },
                    Err(KubeconfigParseError::MissingContext(n)) => {
                        &&& spec_find_context(self.contexts@, name) is None
                        &&& n@ == name
                    },
                    Err(KubeconfigParseError::MissingCluster(n)) => {
                        &&& spec_find_context(self.contexts@, name) matches Some(ctx)
                        &&& n@ == ctx.context.cluster@
                        &&& spec_find_cluster(self.clusters@, ctx.context.cluster@) is None
                    },
                    Err(KubeconfigParseError::MissingUser(n)) => {
                        &&& spec_find_context(self.contexts@, name) matches Some(ctx)
                        &&& spec_find_cluster(self.clusters@, ctx.context.cluster@) is Some
                        &&& n@ == ctx.context.user@
                        &&& spec_find_user(self.users@, ctx.context.user@) is None
                    },
                    _ => false,
                }
            }),
    {
        let name: &String = match &context {
            Some(n) => n,
            None => &self.current_context,
        };

        let found_context = self.find_context(name);
        let named_context = match found_context {
            Some(c) => c,
            None => {
                return Err(KubeconfigParseError::MissingContext(name.clone()));
            },
        };

        let found_cluster = self.find_cluster(&named_context.context.cluster);
        let named_cluster = match found_cluster {
            Some(c) => c,
            None => {
                return Err(
                    KubeconfigParseError::MissingCluster(named_context.context.cluster.clone()),
                );
            },
        };

        let found_user = self.find_user(&named_context.context.user);
        let named_user = match found_user {
            Some(u) => u,
            None => {
                return Err(KubeconfigParseError::MissingUser(named_context.context.user.clone()));
            },
        };

        Ok(ResolvedContext {
            context: &named_context.context,
            cluster: &named_cluster.cluster,
            user: &named_user.user,
        })
    }

    fn find_context<'a>(&'a self, name: &String) -> (r: Option<&'a NamedContext>)
        ensures
            match r {
                Some(c) => spec_find_context(self.contexts@, name@) == Some(*c),
                None => spec_find_context(self.contexts@, name@) is None,
            },
    {
        let n = self.contexts.len();
        let mut i: usize = 0;
        while i < n
            invariant
                n == self.contexts@.len(),
                i <= n,
                forall|j: int| 0 <= j < i ==> self.contexts@[j].name@ != name@,
            decreases n - i,
        {
            if self.contexts[i].name == *name {
                proof {
                    lemma_find_context_step(self.contexts@, name@, i as int);
                    assert(self.contexts@.skip(i as int)[0] == self.contexts@[i as int]);
                }
                return Some(&self.contexts[i]);
            }
            i = i + 1;
        }
        proof {
            lemma_find_context_none(self.contexts@, name@);
        }
        None
    }

    fn find_cluster<'a>(&'a self, name: &String) -> (r: Option<&'a NamedCluster>)
        ensures
            match r {
                Some(c) => spec_find_cluster(self.clusters@, name@) == Some(*c),
                None => spec_find_cluster(self.clusters@, name@) is None,
            },
    {
        let n = self.clusters.len();
        let mut i: usize = 0;
        while i < n
            invariant
                n == self.clusters@.len(),
                i <= n,
                forall|j: int| 0 <= j < i ==> self.clusters@[j].name@ != name@,
            decreases n - i,
        {
            if self.clusters[i].name == *name {
                proof {
                    lemma_find_cluster_step(self.clusters@, name@, i as int);
                    assert(self.clusters@.skip(i as int)[0] == self.clusters@[i as int]);
                }
                return Some(&self.clusters[i]);
            }
            i = i + 1;
        }
        proof {
            lemma_find_cluster_none(self.clusters@, name@);
        }
        None
    }

    fn find_user<'a>(&'a self, name: &String) -> (r: Option<&'a NamedAuthInfo>)
        ensures
            match r {
                Some(u) => spec_find_user(self.users@, name@) == Some(*u),
                None => spec_find_user(self.users@, name@) is None,
            },
    {
        let n = self.users.len();
        let mut i: usize = 0;
        while i < n
            invariant
                n == self.users@.len(),
                i <= n,
                forall|j: int| 0 <= j < i ==> self.users@[j].name@ != name@,
            decreases n - i,
        {
            if self.users[i].name == *name {
                proof {
                    lemma_find_user_step(self.users@, name@, i as int);
                    assert(self.users@.skip(i as int)[0] == self.users@[i as int]);
                }
                return Some(&self.users[i]);
            }
            i = i + 1;
        }
        proof {
            lemma_find_user_none(self.users@, name@);
        }
        None
    }
}

} // verus!
