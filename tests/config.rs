use kubewarden_events::credential::{
    resolve_credential, ConfigError, Credential, CredentialField, ReferenceKind,
};
use kubewarden_events::kube_config::{
    accept_registration, CertificateEncoding, ClusterEntry, ConnectionConfig, ContextEntry,
    KubeConfig, SandboxError, Server, UserEntry, UserIdentity,
};

fn inline(data: &str) -> Credential {
    Credential { data: Some(data.to_string()), path: None, file_contents: None }
}

fn from_file(path: &str, contents: Option<&[u8]>) -> Credential {
    Credential {
        data: None,
        path: Some(path.to_string()),
        file_contents: contents.map(|c| c.to_vec()),
    }
}

fn absent() -> Credential {
    Credential { data: None, path: None, file_contents: None }
}

fn prod_config() -> KubeConfig {
    KubeConfig {
        current_context: Some("prod-alice".to_string()),
        clusters: vec![ClusterEntry {
            name: "prod".to_string(),
            server: "https://10.0.0.1:6443".to_string(),
            certificate_authority: inline("Y2x1c3Rlci1jYQ=="),
        }],
        contexts: vec![ContextEntry {
            name: "prod-alice".to_string(),
            cluster: "prod".to_string(),
            user: "alice".to_string(),
        }],
        users: vec![UserEntry {
            name: "alice".to_string(),
            client_key: inline("Y2xpZW50LWtleQ=="),
            client_certificate: inline("Y2xpZW50LWNlcnQ="),
        }],
    }
}

const FIELDS: [CredentialField; 3] = [
    CredentialField::ClientKey,
    CredentialField::ClientCertificate,
    CredentialField::CertificateAuthority,
];

#[test]
fn inline_data_wins_over_file_for_every_field() {
    for field in FIELDS {
        let c = Credential {
            data: Some("b3RoZXI=".to_string()),
            path: Some("/etc/k8s/file.pem".to_string()),
            file_contents: Some(b"from-file".to_vec()),
        };
        assert_eq!(resolve_credential(field, &c), Ok(b"other".to_vec()));
        assert_eq!(c.file_to_read(), None);
    }
}

#[test]
fn no_source_is_missing_for_every_field() {
    for field in FIELDS {
        assert_eq!(resolve_credential(field, &absent()), Err(ConfigError::MissingField(field)));
        assert_eq!(absent().file_to_read(), None);
    }
}

#[test]
fn invalid_base64_is_malformed() {
    for field in FIELDS {
        let c = inline("!!not base64!!");
        assert_eq!(resolve_credential(field, &c), Err(ConfigError::MalformedEncoding(field)));
    }
}

#[test]
fn file_contents_are_taken_when_no_inline_data() {
    let c = from_file("/etc/k8s/ca.pem", Some(b"pem-bytes"));
    assert_eq!(c.file_to_read(), Some("/etc/k8s/ca.pem".to_string()));
    assert_eq!(
        resolve_credential(CredentialField::CertificateAuthority, &c),
        Ok(b"pem-bytes".to_vec())
    );
}

#[test]
fn unreadable_file_is_reported_with_its_path() {
    let c = from_file("/missing/key.pem", None);
    assert_eq!(
        resolve_credential(CredentialField::ClientKey, &c),
        Err(ConfigError::UnreadableFile(CredentialField::ClientKey, "/missing/key.pem".to_string()))
    );
}

#[test]
fn empty_material_resolves_as_read() {
    assert_eq!(resolve_credential(CredentialField::ClientCertificate, &inline("")), Ok(Vec::new()));
    assert_eq!(
        resolve_credential(CredentialField::CertificateAuthority, &from_file("/ca", Some(b""))),
        Ok(Vec::new())
    );
}

#[test]
fn empty_identity_material_is_missing() {
    let mut config = prod_config();
    config.users[0].client_certificate = inline("");
    assert_eq!(
        UserIdentity::from_kube_user_and_cluster(&config.users[0], &config.clusters[0]).unwrap_err(),
        ConfigError::MissingField(CredentialField::ClientCertificate)
    );
    let mut config = prod_config();
    config.users[0].client_key = from_file("/k", Some(b""));
    assert_eq!(
        ConnectionConfig::from_kube_config(&config).unwrap_err(),
        ConfigError::MissingField(CredentialField::ClientKey)
    );
}

#[test]
fn empty_ca_file_gives_empty_server_bundle() {
    let cluster = ClusterEntry {
        name: "prod".to_string(),
        server: "https://10.0.0.1:6443".to_string(),
        certificate_authority: from_file("/etc/k8s/ca.pem", Some(b"")),
    };
    let server = Server::from_cluster(&cluster).unwrap();
    assert_eq!(server.url, "https://10.0.0.1:6443");
    assert_eq!(server.ca, Vec::<u8>::new());
    let config = prod_config();
    assert_eq!(
        UserIdentity::from_kube_user_and_cluster(&config.users[0], &cluster).unwrap_err(),
        ConfigError::MissingField(CredentialField::CertificateAuthority)
    );
}

#[test]
fn end_to_end_prod_configuration() {
    let config = ConnectionConfig::from_kube_config(&prod_config()).unwrap();
    assert_eq!(config.server.url, "https://10.0.0.1:6443");
    assert_eq!(config.server.ca, b"cluster-ca".to_vec());
    assert_eq!(config.identity.key, b"client-key".to_vec());
    assert_eq!(config.identity.cert, b"client-cert".to_vec());
    assert_eq!(config.identity.ca, b"cluster-ca".to_vec());
}

#[test]
fn no_current_context() {
    let mut config = prod_config();
    config.current_context = None;
    assert_eq!(
        ConnectionConfig::from_kube_config(&config).unwrap_err(),
        ConfigError::NoActiveContext
    );
    config.current_context = Some("staging".to_string());
    assert_eq!(
        ConnectionConfig::from_kube_config(&config).unwrap_err(),
        ConfigError::NoActiveContext
    );
}

#[test]
fn dangling_cluster_and_user() {
    let mut config = prod_config();
    config.contexts[0].cluster = "dev".to_string();
    assert_eq!(
        ConnectionConfig::from_kube_config(&config).unwrap_err(),
        ConfigError::DanglingReference(ReferenceKind::Cluster, "dev".to_string())
    );
    let mut config = prod_config();
    config.contexts[0].user = "bob".to_string();
    assert_eq!(
        ConnectionConfig::from_kube_config(&config).unwrap_err(),
        ConfigError::DanglingReference(ReferenceKind::User, "bob".to_string())
    );
}

#[test]
fn first_matching_definition_is_used() {
    let mut config = prod_config();
    config.clusters.push(ClusterEntry {
        name: "prod".to_string(),
        server: "https://10.9.9.9:6443".to_string(),
        certificate_authority: inline("b3RoZXI="),
    });
    let c = ConnectionConfig::from_kube_config(&config).unwrap();
    assert_eq!(c.server.url, "https://10.0.0.1:6443");
}

#[test]
fn identity_errors_come_in_order_ca_key_cert() {
    let mut config = prod_config();
    config.users[0].client_key = absent();
    config.users[0].client_certificate = inline("%%%");
    assert_eq!(
        ConnectionConfig::from_kube_config(&config).unwrap_err(),
        ConfigError::MissingField(CredentialField::ClientKey)
    );
    config.clusters[0].certificate_authority = absent();
    assert_eq!(
        ConnectionConfig::from_kube_config(&config).unwrap_err(),
        ConfigError::MissingField(CredentialField::CertificateAuthority)
    );
}

#[test]
fn identity_and_server_from_definitions() {
    let config = prod_config();
    let identity = UserIdentity::from_kube_user_and_cluster(&config.users[0], &config.clusters[0]).unwrap();
    assert_eq!(identity.key, b"client-key".to_vec());
    let server = Server::from_cluster(&config.clusters[0]).unwrap();
    assert_eq!(server.ca, b"cluster-ca".to_vec());
    assert_eq!(server.url, "https://10.0.0.1:6443");
}

#[test]
fn trust_record_forces_verification() {
    let config = ConnectionConfig::from_kube_config(&prod_config()).unwrap();
    let record = config.register();
    assert!(!record.accept_invalid_hostnames);
    assert!(!record.accept_invalid_certificates);
    assert_eq!(record.extra_root_certificates.len(), 1);
    assert_eq!(record.extra_root_certificates[0].encoding, CertificateEncoding::Pem);
    assert_eq!(record.extra_root_certificates[0].data, b"cluster-ca".to_vec());
    let identity = record.identity.unwrap();
    assert_eq!(identity.key, b"client-key".to_vec());
    assert_eq!(identity.cert, b"client-cert".to_vec());
    assert_eq!(identity.ca, b"cluster-ca".to_vec());
}

#[test]
fn registration_answers() {
    assert_eq!(accept_registration(Ok("cfg-1".to_string())), Ok("cfg-1".to_string()));
    assert_eq!(
        accept_registration(Err("bad pem".to_string())),
        Err(SandboxError::RegistrationRejected("bad pem".to_string()))
    );
}
