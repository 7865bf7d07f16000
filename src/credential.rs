//! Resolution of one piece of credential material (a client key, a client
//! certificate or a certificate authority) from inline base64 data or from a
//! file reference.

use vstd::prelude::*;

verus! {

/// What `base64::decode` (standard alphabet, padded) yields for a text:
/// the decoded bytes, or `None` where the text is not valid base64.
pub uninterp spec fn base64_decoded(s: Seq<char>) -> Option<Seq<u8>>;

/// Relies on `base64::decode` (standard configuration): it returns the
/// decoded bytes, or an error where the input is not valid base64.
#[verifier::external_body]
fn decode_base64(s: &String) -> (r: Option<Vec<u8>>)
    ensures
        match r {
            Some(b) => base64_decoded(s@) == Some(b@),
            None => base64_decoded(s@).is_none(),
        },
{
    base64::decode(s.as_bytes()).ok()
}

/// The three pieces of credential material of a connection.
#[derive(Clone, Copy, Debug, PartialEq, Eq, Structural)]
pub enum CredentialField {
    ClientKey,
    ClientCertificate,
    CertificateAuthority,
}

/// What a context can refer to by name.
#[derive(Clone, Copy, Debug, PartialEq, Eq, Structural)]
pub enum ReferenceKind {
    Cluster,
    User,
}

/// Failures while turning a cluster configuration into a connection.
#[derive(Clone, Debug, PartialEq, Eq)]
pub enum ConfigError {
    /// The configuration file is absent or cannot be parsed.
    NotFound(String),
    /// No current context is set, or it names no defined context.
    NoActiveContext,
    /// The current context names a cluster or user that is not defined.
    DanglingReference(ReferenceKind, String),
    /// Neither inline data nor a file reference gives the material.
    MissingField(CredentialField),
    /// The inline data is not valid base64.
    MalformedEncoding(CredentialField),
    /// The referenced file could not be read.
    UnreadableFile(CredentialField, String),
}

/// The sources of one piece of credential material.
///
/// `data` is inline base64 text, `path` a file reference. `file_contents`
/// holds what reading `path` gave; it is `None` where the file was not read
/// or could not be read.
#[derive(Clone, Debug)]
pub struct Credential {
    pub data: Option<String>,
    pub path: Option<String>,
    pub file_contents: Option<Vec<u8>>,
}

/// The material that a credential resolves to. Inline data wins over a file
/// reference; with neither, the material is missing.
pub open spec fn resolved(field: CredentialField, c: Credential) -> Result<Seq<u8>, ConfigError> {
    match c.data {
        Some(d) => match base64_decoded(d@) {
            Some(b) => Ok(b),
            None => Err(ConfigError::MalformedEncoding(field)),
        },
        None => match c.path {
            Some(p) => match c.file_contents {
                Some(b) => Ok(b@),
                None => Err(ConfigError::UnreadableFile(field, p)),
            },
            None => Err(ConfigError::MissingField(field)),
        },
    }
}

/// `r` is the executable counterpart of the resolution `s`.
pub open spec fn matches_resolution(r: Result<Vec<u8>, ConfigError>, s: Result<Seq<u8>, ConfigError>) -> bool {
    match r {
        Ok(b) => s == Ok::<Seq<u8>, ConfigError>(b@),
        Err(e) => s == Err::<Seq<u8>, ConfigError>(e),
    }
}

impl Credential {
    /// The file that has to be read to resolve this credential: the file
    /// reference, where no inline data is given.
    pub fn file_to_read(&self) -> (r: Option<String>)
        ensures
            r == (if self.data.is_some() { None } else { self.path }),
    {
        if self.data.is_some() {
            None
        } else {
            self.path.clone()
        }
    }
}

/// Resolves one piece of credential material: inline data is decoded, else
/// the contents of the referenced file are taken, else it is missing.
pub fn resolve_credential(field: CredentialField, c: &Credential) -> (r: Result<Vec<u8>, ConfigError>)
    ensures
        matches_resolution(r, resolved(field, *c)),
{
    match &c.data {
        Some(d) => match decode_base64(d) {
            Some(b) => Ok(b),
            None => Err(ConfigError::MalformedEncoding(field)),
        },
        None => match &c.path {
            Some(p) => match &c.file_contents {
                Some(b) => {
                    let contents = b.clone();
                    assert(contents@ =~= b@);
                    Ok(contents)
                },
                None => Err(ConfigError::UnreadableFile(field, p.clone())),
            },
            None => Err(ConfigError::MissingField(field)),
        },
    }
}

/// Inline data takes precedence: two credentials with the same inline data
/// resolve alike, whatever their file references and file contents.
pub proof fn lemma_inline_data_takes_precedence(field: CredentialField, a: Credential, b: Credential)
    requires
        a.data is Some,
        a.data == b.data,
    ensures
        resolved(field, a) == resolved(field, b),
{
}

/// A credential with neither inline data nor a file reference is missing.
pub proof fn lemma_no_source_is_missing(field: CredentialField, c: Credential)
    requires
        c.data is None,
        c.path is None,
    ensures
        resolved(field, c) == Err::<Seq<u8>, ConfigError>(ConfigError::MissingField(field)),
{
}

/// Inline data that is not valid base64 is reported as malformed, never
/// resolved to some (possibly empty) material.
pub proof fn lemma_invalid_inline_data_is_malformed(field: CredentialField, c: Credential)
    requires
        c.data matches Some(d) && base64_decoded(d@).is_none(),
    ensures
        resolved(field, c) == Err::<Seq<u8>, ConfigError>(ConfigError::MalformedEncoding(field)),
{
}


/// Resolved material for a client identity, where empty material counts as
/// missing.
pub open spec fn present(field: CredentialField, r: Result<Seq<u8>, ConfigError>) -> Result<Seq<u8>, ConfigError> {
    match r {
        Ok(b) => if b.len() == 0 {
            Err(ConfigError::MissingField(field))
        } else {
            Ok(b)
        },
        Err(e) => Err(e),
    }
}

/// Resolves one piece of a client identity: as [`resolve_credential`], and
/// material that comes out empty is missing.
pub fn resolve_present(field: CredentialField, c: &Credential) -> (r: Result<Vec<u8>, ConfigError>)
    ensures
        matches_resolution(r, present(field, resolved(field, *c))),
        r matches Ok(b) ==> b@.len() > 0,
{
    match resolve_credential(field, c) {
        Ok(b) => if b.len() == 0 {
            Err(ConfigError::MissingField(field))
        } else {
            Ok(b)
        },
        Err(e) => Err(e),
    }
}

} // verus!
