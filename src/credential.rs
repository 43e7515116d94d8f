use vstd::prelude::*;

verus! {

/// Schema version that the consuming client expects in every credential.
pub const API_VERSION: &'static str = "client.authentication.k8s.io/v1beta1";

/// Kind of document that the consuming client expects.
pub const KIND: &'static str = "ExecCredential";

/// Name of the cache file, kept beside the running executable.
pub const CACHE_FILE_NAME: &'static str = "gke-exec-credential-cached";

/// The token and the instant (RFC 3339 text) at which it stops being valid.
#[derive(Clone, Debug, PartialEq, Eq)]
pub struct ExecCredentialStatus {
    pub token: String,
    pub expiration_timestamp: String,
}

/// A credential document as the cluster client consumes it.
#[derive(Clone, Debug, PartialEq, Eq)]
pub struct ExecCredential {
    pub api_version: String,
    pub kind: String,
    pub status: ExecCredentialStatus,
}

/// The four texts that a credential holds.
pub struct CredentialView {
    pub api_version: Seq<char>,
    pub kind: Seq<char>,
    pub token: Seq<char>,
    pub expiration_timestamp: Seq<char>,
}

impl View for ExecCredential {
    type V = CredentialView;

    open spec fn view(&self) -> CredentialView {
        CredentialView {
            api_version: self.api_version@,
            kind: self.kind@,
            token: self.status.token@,
            expiration_timestamp: self.status.expiration_timestamp@,
        }
    }
}

/// Every way in which a run can fail. Each variant carries a detail for the
/// diagnostic message.
#[derive(Clone, Debug, PartialEq, Eq)]
pub enum CredentialError {
    /// The cache file could not be read or written; carries the reason.
    Io(String),
    /// The cache file is not a credential document; carries the JSON pointer
    /// of the first field that is missing or not a string, or is empty when
    /// the file is not JSON at all.
    MalformedCache(String),
    /// The expiration timestamp is not RFC 3339; carries the text.
    MalformedTimestamp(String),
    /// The authentication helper failed; carries its error stream verbatim.
    AuthHelper(String),
    /// The helper's standard output is not the expected document; carries the
    /// JSON pointer of the field that is missing or not a string, or is empty
    /// when the output is not JSON at all.
    MalformedHelperOutput(String),
}

/// What an error says, over the texts it carries.
pub enum ErrorView {
    Io(Seq<char>),
    MalformedCache(Seq<char>),
    MalformedTimestamp(Seq<char>),
    AuthHelper(Seq<char>),
    MalformedHelperOutput(Seq<char>),
}

impl View for CredentialError {
    type V = ErrorView;

    open spec fn view(&self) -> ErrorView {
        match self {
            CredentialError::Io(d) => ErrorView::Io(d@),
            CredentialError::MalformedCache(d) => ErrorView::MalformedCache(d@),
            CredentialError::MalformedTimestamp(d) => ErrorView::MalformedTimestamp(d@),
            CredentialError::AuthHelper(d) => ErrorView::AuthHelper(d@),
            CredentialError::MalformedHelperOutput(d) => ErrorView::MalformedHelperOutput(d@),
        }
    }
}

/// A fallible result that yields a credential, seen through the views.
pub open spec fn credential_outcome(r: Result<ExecCredential, CredentialError>) -> Result<
    CredentialView,
    ErrorView,
> {
    match r {
        Ok(c) => Ok(c@),
        Err(e) => Err(e@),
    }
}

/// The texts of a fresh credential with the given token and expiry.
pub open spec fn fresh_view(token: Seq<char>, expiration_timestamp: Seq<char>) -> CredentialView {
    CredentialView {
        api_version: API_VERSION@,
        kind: KIND@,
        token,
        expiration_timestamp,
    }
}

/// Builds a credential with the fixed schema version and kind.
pub fn new_credential(token: String, expiration_timestamp: String) -> (r: ExecCredential)
    ensures
        r@ == fresh_view(token@, expiration_timestamp@),
{
    ExecCredential {
        api_version: API_VERSION.to_owned(),
        kind: KIND.to_owned(),
        status: ExecCredentialStatus { token, expiration_timestamp },
    }
}

} // verus!
