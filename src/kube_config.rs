//! The cluster configuration, the connection derived from it, and the trust
//! record that registers the connection with the host.

use vstd::prelude::*;
use crate::credential::{
    present, resolve_credential, resolve_present, resolved, ConfigError, Credential, CredentialField, ReferenceKind,
};

verus! {

/// A named cluster definition of the configuration.
#[derive(Clone, Debug)]
pub struct ClusterEntry {
    pub name: String,
    pub server: String,
    pub certificate_authority: Credential,
}

/// A named user definition of the configuration.
#[derive(Clone, Debug)]
pub struct UserEntry {
    pub name: String,
    pub client_key: Credential,
    pub client_certificate: Credential,
}

/// A named context: the pairing of a cluster and a user, by name.
#[derive(Clone, Debug)]
pub struct ContextEntry {
    pub name: String,
    pub cluster: String,
    pub user: String,
}

/// A cluster configuration: definitions and the current context's name.
#[derive(Clone, Debug)]
pub struct KubeConfig {
    pub current_context: Option<String>,
    pub clusters: Vec<ClusterEntry>,
    pub contexts: Vec<ContextEntry>,
    pub users: Vec<UserEntry>,
}

/// The index of the first of `names` at or after `i` that equals `name`.
pub open spec fn first_named_from(names: Seq<Seq<char>>, name: Seq<char>, i: int) -> Option<int>
    decreases names.len() - i,
{
    if i < 0 || i >= names.len() {
        None
    } else if names[i] == name {
        Some(i)
    } else {
        first_named_from(names, name, i + 1)
    }
}

/// The index of the first of `names` that equals `name`.
pub open spec fn first_named(names: Seq<Seq<char>>, name: Seq<char>) -> Option<int> {
    first_named_from(names, name, 0)
}

/// An optional position, as an integer.
pub open spec fn as_index(r: Option<usize>) -> Option<int> {
    match r {
        Some(k) => Some(k as int),
        None => None,
    }
}

/// The names of cluster definitions, in order.
pub open spec fn cluster_names(s: Seq<ClusterEntry>) -> Seq<Seq<char>> {
    s.map_values(|c: ClusterEntry| c.name@)
}

/// The names of user definitions, in order.
pub open spec fn user_names(s: Seq<UserEntry>) -> Seq<Seq<char>> {
    s.map_values(|u: UserEntry| u.name@)
}

/// The names of context definitions, in order.
pub open spec fn context_names(s: Seq<ContextEntry>) -> Seq<Seq<char>> {
    s.map_values(|c: ContextEntry| c.name@)
}

/// The index of the first cluster named `name`.
fn find_cluster(clusters: &Vec<ClusterEntry>, name: &String) -> (r: Option<usize>)
    ensures
        r matches Some(k) ==> k < clusters@.len(),
        as_index(r) == first_named(cluster_names(clusters@), name@),
{
    let ghost names = cluster_names(clusters@);
    let mut i: usize = 0;
    while i < clusters.len()
        invariant
            i <= clusters@.len(),
            names == cluster_names(clusters@),
            first_named(names, name@) == first_named_from(names, name@, i as int),
        decreases clusters@.len() - i,
    {
        if clusters[i].name == *name {
            return Some(i);
        }
        i = i + 1;
    }
    None
}

/// The index of the first user named `name`.
fn find_user(users: &Vec<UserEntry>, name: &String) -> (r: Option<usize>)
    ensures
        r matches Some(k) ==> k < users@.len(),
        as_index(r) == first_named(user_names(users@), name@),
{
    let ghost names = user_names(users@);
    let mut i: usize = 0;
    while i < users.len()
        invariant
            i <= users@.len(),
            names == user_names(users@),
            first_named(names, name@) == first_named_from(names, name@, i as int),
        decreases users@.len() - i,
    {
        if users[i].name == *name {
            return Some(i);
        }
        i = i + 1;
    }
    None
}

/// The index of the first context named `name`.
fn find_context(contexts: &Vec<ContextEntry>, name: &String) -> (r: Option<usize>)
    ensures
        r matches Some(k) ==> k < contexts@.len(),
        as_index(r) == first_named(context_names(contexts@), name@),
{
    let ghost names = context_names(contexts@);
    let mut i: usize = 0;
    while i < contexts.len()
        invariant
            i <= contexts@.len(),
            names == context_names(contexts@),
            first_named(names, name@) == first_named_from(names, name@, i as int),
        decreases contexts@.len() - i,
    {
        if contexts[i].name == *name {
            return Some(i);
        }
        i = i + 1;
    }
    None
}


/// The client identity for mutual TLS.
#[derive(Clone, Debug)]
pub struct UserIdentity {
    pub key: Vec<u8>,
    pub cert: Vec<u8>,
    pub ca: Vec<u8>,
}

/// The target server and the authority that vouches for it.
#[derive(Clone, Debug)]
pub struct Server {
    pub url: String,
    pub ca: Vec<u8>,
}

/// A resolved identity and its server: what a connection needs.
#[derive(Clone, Debug)]
pub struct ConnectionConfig {
    pub identity: UserIdentity,
    pub server: Server,
}

/// The value of a [`UserIdentity`].
pub struct IdentityModel {
    pub key: Seq<u8>,
    pub cert: Seq<u8>,
    pub ca: Seq<u8>,
}

/// The value of a [`Server`].
pub struct ServerModel {
    pub url: Seq<char>,
    pub ca: Seq<u8>,
}

/// The value of a [`ConnectionConfig`].
pub struct ConnectionModel {
    pub identity: IdentityModel,
    pub server: ServerModel,
}

impl View for UserIdentity {
    type V = IdentityModel;

    open spec fn view(&self) -> IdentityModel {
        IdentityModel { key: self.key@, cert: self.cert@, ca: self.ca@ }
    }
}

impl View for Server {
    type V = ServerModel;

    open spec fn view(&self) -> ServerModel {
        ServerModel { url: self.url@, ca: self.ca@ }
    }
}

impl View for ConnectionConfig {
    type V = ConnectionModel;

    open spec fn view(&self) -> ConnectionModel {
        ConnectionModel { identity: self.identity@, server: self.server@ }
    }
}

impl UserIdentity {
    /// All three pieces of material are present.
    pub open spec fn wf(&self) -> bool {
        self.key@.len() > 0 && self.cert@.len() > 0 && self.ca@.len() > 0
    }
}

impl ConnectionConfig {
    /// The identity is complete.
    pub open spec fn wf(&self) -> bool {
        self.identity.wf()
    }
}

/// The identity that a user and a cluster definition resolve to: the
/// cluster's authority, then the user's key, then the user's certificate;
/// each must be present and non-empty.
pub open spec fn identity_of(user: UserEntry, cluster: ClusterEntry) -> Result<IdentityModel, ConfigError> {
    match present(CredentialField::CertificateAuthority, resolved(CredentialField::CertificateAuthority, cluster.certificate_authority)) {
        Err(e) => Err(e),
        Ok(ca) => match present(CredentialField::ClientKey, resolved(CredentialField::ClientKey, user.client_key)) {
            Err(e) => Err(e),
            Ok(key) => match present(CredentialField::ClientCertificate, resolved(CredentialField::ClientCertificate, user.client_certificate)) {
                Err(e) => Err(e),
                Ok(cert) => Ok(IdentityModel { key, cert, ca }),
            },
        },
    }
}

/// The server that a cluster definition resolves to; its authority's
/// material is taken as resolved, even where it is empty.
pub open spec fn server_of(cluster: ClusterEntry) -> Result<ServerModel, ConfigError> {
    match resolved(CredentialField::CertificateAuthority, cluster.certificate_authority) {
        Err(e) => Err(e),
        Ok(ca) => Ok(ServerModel { url: cluster.server@, ca }),
    }
}

/// The connection that a configuration resolves to: its current context
/// selects a cluster and a user, which give the identity and the server.
pub open spec fn connection_of(config: KubeConfig) -> Result<ConnectionModel, ConfigError> {
    match config.current_context {
        None => Err(ConfigError::NoActiveContext),
        Some(current) => match first_named(context_names(config.contexts@), current@) {
            None => Err(ConfigError::NoActiveContext),
            Some(k) => {
                let context = config.contexts@[k];
                match first_named(cluster_names(config.clusters@), context.cluster@) {
                    None => Err(ConfigError::DanglingReference(ReferenceKind::Cluster, context.cluster)),
                    Some(c) => match first_named(user_names(config.users@), context.user@) {
                        None => Err(ConfigError::DanglingReference(ReferenceKind::User, context.user)),
                        Some(u) => {
                            let cluster = config.clusters@[c];
                            match identity_of(config.users@[u], cluster) {
                                Err(e) => Err(e),
                                Ok(identity) => match server_of(cluster) {
                                    Err(e) => Err(e),
                                    Ok(server) => Ok(ConnectionModel { identity, server }),
                                },
                            }
                        },
                    },
                }
            },
        },
    }
}

impl UserIdentity {
    /// Resolves the client identity from a user and a cluster definition.
    pub fn from_kube_user_and_cluster(user: &UserEntry, cluster: &ClusterEntry) -> (r: Result<UserIdentity, ConfigError>)
        ensures
            match r {
                Ok(i) => identity_of(*user, *cluster) == Ok::<IdentityModel, ConfigError>(i@) && i.wf(),
                Err(e) => identity_of(*user, *cluster) == Err::<IdentityModel, ConfigError>(e),
            },
    {
        let ca = match resolve_present(CredentialField::CertificateAuthority, &cluster.certificate_authority) {
            Ok(b) => b,
            Err(e) => return Err(e),
        };
        let key = match resolve_present(CredentialField::ClientKey, &user.client_key) {
            Ok(b) => b,
            Err(e) => return Err(e),
        };
        let cert = match resolve_present(CredentialField::ClientCertificate, &user.client_certificate) {
            Ok(b) => b,
            Err(e) => return Err(e),
        };
        Ok(UserIdentity { key, cert, ca })
    }
}

impl Server {
    /// Resolves the server from a cluster definition. The URL is copied as
    /// given; one that is not an absolute URI with an authority is reported
    /// as `MalformedUri` by `make_request`, whose contract says so through
    /// `composed_uri`.
    pub fn from_cluster(cluster: &ClusterEntry) -> (r: Result<Server, ConfigError>)
        ensures
            match r {
                Ok(s) => server_of(*cluster) == Ok::<ServerModel, ConfigError>(s@),
                Err(e) => server_of(*cluster) == Err::<ServerModel, ConfigError>(e),
            },
    {
        let ca = match resolve_credential(CredentialField::CertificateAuthority, &cluster.certificate_authority) {
            Ok(b) => b,
            Err(e) => return Err(e),
        };
        Ok(Server { url: cluster.server.clone(), ca })
    }
}

impl ConnectionConfig {
    /// Resolves the connection of the configuration's current context.
    pub fn from_kube_config(config: &KubeConfig) -> (r: Result<ConnectionConfig, ConfigError>)
        ensures
            match r {
                Ok(c) => connection_of(*config) == Ok::<ConnectionModel, ConfigError>(c@) && c.wf(),
                Err(e) => connection_of(*config) == Err::<ConnectionModel, ConfigError>(e),
            },
    {
        let current = match &config.current_context {
            Some(name) => name,
            None => return Err(ConfigError::NoActiveContext),
        };
        let k = match find_context(&config.contexts, current) {
            Some(k) => k,
            None => return Err(ConfigError::NoActiveContext),
        };
        let context = &config.contexts[k];
        let c = match find_cluster(&config.clusters, &context.cluster) {
            Some(c) => c,
            None => return Err(ConfigError::DanglingReference(ReferenceKind::Cluster, context.cluster.clone())),
        };
        let u = match find_user(&config.users, &context.user) {
            Some(u) => u,
            None => return Err(ConfigError::DanglingReference(ReferenceKind::User, context.user.clone())),
        };
        let cluster = &config.clusters[c];
        let identity = match UserIdentity::from_kube_user_and_cluster(&config.users[u], cluster) {
            Ok(i) => i,
            Err(e) => return Err(e),
        };
        let server = match Server::from_cluster(cluster) {
            Ok(s) => s,
            Err(e) => return Err(e),
        };
        Ok(ConnectionConfig { identity, server })
    }
}


/// How certificate bytes are encoded.
#[derive(Clone, Copy, Debug, PartialEq, Eq, Structural)]
pub enum CertificateEncoding {
    Pem,
}

/// A certificate handed to the host as an extra trusted root.
#[derive(Clone, Debug)]
pub struct Certificate {
    pub encoding: CertificateEncoding,
    pub data: Vec<u8>,
}

/// The client identity as the host takes it.
#[derive(Clone, Debug)]
pub struct Identity {
    pub key: Vec<u8>,
    pub cert: Vec<u8>,
    pub ca: Vec<u8>,
}

/// The trust record that the host registers under a configuration handle.
#[derive(Clone, Debug)]
pub struct RequestConfig {
    pub accept_invalid_hostnames: bool,
    pub accept_invalid_certificates: bool,
    pub extra_root_certificates: Vec<Certificate>,
    pub identity: Option<Identity>,
}

/// Failures of the registration with the host.
#[derive(Clone, Debug, PartialEq, Eq)]
pub enum SandboxError {
    /// The host refused the trust material; the host's detail is kept.
    RegistrationRejected(String),
}

fn copy_bytes(b: &Vec<u8>) -> (r: Vec<u8>)
    ensures
        r@ == b@,
{
    let r = b.clone();
    assert(r@ =~= b@);
    r
}

impl ConnectionConfig {
    /// The trust record to register with the host: hostname and certificate
    /// verification are on, the server's authority is the one extra trusted
    /// root (PEM), and the client identity is attached for mutual TLS.
    pub fn register(&self) -> (r: RequestConfig)
        ensures
            !r.accept_invalid_hostnames,
            !r.accept_invalid_certificates,
            r.extra_root_certificates@.len() == 1,
            r.extra_root_certificates@[0].encoding == CertificateEncoding::Pem,
            r.extra_root_certificates@[0].data@ == self.server.ca@,
            r.identity matches Some(i) && i.key@ == self.identity.key@ && i.cert@ == self.identity.cert@
                && i.ca@ == self.identity.ca@,
    {
        let server_cert = Certificate { encoding: CertificateEncoding::Pem, data: copy_bytes(&self.server.ca) };
        let identity = Identity {
            key: copy_bytes(&self.identity.key),
            cert: copy_bytes(&self.identity.cert),
            ca: copy_bytes(&self.identity.ca),
        };
        RequestConfig {
            accept_invalid_hostnames: false,
            accept_invalid_certificates: false,
            extra_root_certificates: vec![server_cert],
            identity: Some(identity),
        }
    }
}

/// Interprets the host's answer to a registration: the configuration handle,
/// or the host's refusal.
pub fn accept_registration(answer: Result<String, String>) -> (r: Result<String, SandboxError>)
    ensures
        match answer {
            Ok(handle) => r == Ok::<String, SandboxError>(handle),
            Err(detail) => r == Err::<String, SandboxError>(SandboxError::RegistrationRejected(detail)),
        },
{
    match answer {
        Ok(handle) => Ok(handle),
        Err(detail) => Err(SandboxError::RegistrationRejected(detail)),
    }
}


/// Inline data takes precedence for each piece of an identity: users and
/// clusters with the same inline data resolve to the same identity, whatever
/// their file references and file contents.
pub proof fn lemma_identity_prefers_inline_data(u1: UserEntry, u2: UserEntry, c1: ClusterEntry, c2: ClusterEntry)
    requires
        u1.client_key.data is Some,
        u1.client_key.data == u2.client_key.data,
        u1.client_certificate.data is Some,
        u1.client_certificate.data == u2.client_certificate.data,
        c1.certificate_authority.data is Some,
        c1.certificate_authority.data == c2.certificate_authority.data,
    ensures
        identity_of(u1, c1) == identity_of(u2, c2),
{
}

} // verus!
