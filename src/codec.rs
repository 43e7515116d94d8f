use vstd::prelude::*;
use crate::credential::{
    credential_outcome, fresh_view, new_credential, CredentialError, CredentialView, ErrorView,
    ExecCredential, ExecCredentialStatus,
};
use crate::json::{is_json, json_quoted, json_str_at, parses_as_json, quote, str_at};

verus! {

/// Where a credential document keeps its schema version.
pub const API_VERSION_POINTER: &'static str = "/apiVersion";

/// Where a credential document keeps its kind.
pub const KIND_POINTER: &'static str = "/kind";

/// Where a credential document keeps its token.
pub const TOKEN_POINTER: &'static str = "/status/token";

/// Where a credential document keeps its expiration timestamp.
pub const EXPIRY_POINTER: &'static str = "/status/expirationTimestamp";

/// Where the authentication helper's output keeps the access token.
pub const HELPER_TOKEN_POINTER: &'static str = "/credential/access_token";

/// Where the authentication helper's output keeps the token's expiry.
pub const HELPER_EXPIRY_POINTER: &'static str = "/credential/token_expiry";

/// The compact document that the cache file holds.
pub open spec fn compact_text(c: CredentialView) -> Seq<char> {
    "{\"apiVersion\":"@ + json_quoted(c.api_version) + ",\"kind\":"@ + json_quoted(c.kind)
        + ",\"status\":{\"token\":"@ + json_quoted(c.token) + ",\"expirationTimestamp\":"@
        + json_quoted(c.expiration_timestamp) + "}}"@
}

/// The pretty document, indented by two spaces a level, that is printed.
pub open spec fn pretty_text(c: CredentialView) -> Seq<char> {
    "{\n  \"apiVersion\": "@ + json_quoted(c.api_version) + ",\n  \"kind\": "@ + json_quoted(
        c.kind,
    ) + ",\n  \"status\": {\n    \"token\": "@ + json_quoted(c.token)
        + ",\n    \"expirationTimestamp\": "@ + json_quoted(c.expiration_timestamp)
        + "\n  }\n}"@
}

/// The credential that a cache text holds, or the reason it holds none: the
/// text must be JSON and hold the four fields as strings, which are read in
/// document order.
pub open spec fn decoded(text: Seq<char>) -> Result<CredentialView, ErrorView> {
    if !is_json(text) {
        Err(ErrorView::MalformedCache(Seq::empty()))
    } else if json_str_at(text, API_VERSION_POINTER@) is None {
        Err(ErrorView::MalformedCache(API_VERSION_POINTER@))
    } else if json_str_at(text, KIND_POINTER@) is None {
        Err(ErrorView::MalformedCache(KIND_POINTER@))
    } else if json_str_at(text, TOKEN_POINTER@) is None {
        Err(ErrorView::MalformedCache(TOKEN_POINTER@))
    } else if json_str_at(text, EXPIRY_POINTER@) is None {
        Err(ErrorView::MalformedCache(EXPIRY_POINTER@))
    } else {
        Ok(
            CredentialView {
                api_version: json_str_at(text, API_VERSION_POINTER@)->0,
                kind: json_str_at(text, KIND_POINTER@)->0,
                token: json_str_at(text, TOKEN_POINTER@)->0,
                expiration_timestamp: json_str_at(text, EXPIRY_POINTER@)->0,
            },
        )
    }
}

/// The credential that the authentication helper's two streams give, or the
/// reason they give none. Any text on the error stream is a failure, whatever
/// the standard output holds.
pub open spec fn from_helper(stdout: Seq<char>, stderr: Seq<char>) -> Result<
    CredentialView,
    ErrorView,
> {
    if stderr.len() > 0 {
        Err(ErrorView::AuthHelper(stderr))
    } else if !is_json(stdout) {
        Err(ErrorView::MalformedHelperOutput(Seq::empty()))
    } else if json_str_at(stdout, HELPER_TOKEN_POINTER@) is None {
        Err(ErrorView::MalformedHelperOutput(HELPER_TOKEN_POINTER@))
    } else if json_str_at(stdout, HELPER_EXPIRY_POINTER@) is None {
        Err(ErrorView::MalformedHelperOutput(HELPER_EXPIRY_POINTER@))
    } else {
        Ok(
            fresh_view(
                json_str_at(stdout, HELPER_TOKEN_POINTER@)->0,
                json_str_at(stdout, HELPER_EXPIRY_POINTER@)->0,
            ),
        )
    }
}

/// Appends the quoted form of `s` to `out`.
fn push_quoted(out: &mut String, s: &String)
    ensures
        final(out)@ == old(out)@ + json_quoted(s@),
{
    let q = quote(s.as_str());
    out.append(q.as_str());
}

/// Writes the compact document that the cache file holds.
pub fn encode_compact(c: &ExecCredential) -> (r: String)
    ensures
        r@ == compact_text(c@),
{
    let mut out = String::new();
    out.append("{\"apiVersion\":");
    push_quoted(&mut out, &c.api_version);
    out.append(",\"kind\":");
    push_quoted(&mut out, &c.kind);
    out.append(",\"status\":{\"token\":");
    push_quoted(&mut out, &c.status.token);
    out.append(",\"expirationTimestamp\":");
    push_quoted(&mut out, &c.status.expiration_timestamp);
    out.append("}}");
    out
}

/// Writes the pretty document that is printed.
pub fn encode_pretty(c: &ExecCredential) -> (r: String)
    ensures
        r@ == pretty_text(c@),
{
    let mut out = String::new();
    out.append("{\n  \"apiVersion\": ");
    push_quoted(&mut out, &c.api_version);
    out.append(",\n  \"kind\": ");
    push_quoted(&mut out, &c.kind);
    out.append(",\n  \"status\": {\n    \"token\": ");
    push_quoted(&mut out, &c.status.token);
    out.append(",\n    \"expirationTimestamp\": ");
    push_quoted(&mut out, &c.status.expiration_timestamp);
    out.append("\n  }\n}");
    out
}

/// Reads a credential back from the text of the cache file.
pub fn decode_credential(text: &str) -> (r: Result<ExecCredential, CredentialError>)
    ensures
        credential_outcome(r) == decoded(text@),
{
    if !parses_as_json(text) {
        return Err(CredentialError::MalformedCache(String::new()));
    }
    let api_version = match str_at(text, API_VERSION_POINTER) {
        Some(s) => s,
        None => return Err(CredentialError::MalformedCache(API_VERSION_POINTER.to_owned())),
    };
    let kind = match str_at(text, KIND_POINTER) {
        Some(s) => s,
        None => return Err(CredentialError::MalformedCache(KIND_POINTER.to_owned())),
    };
    let token = match str_at(text, TOKEN_POINTER) {
        Some(s) => s,
        None => return Err(CredentialError::MalformedCache(TOKEN_POINTER.to_owned())),
    };
    let expiration_timestamp = match str_at(text, EXPIRY_POINTER) {
        Some(s) => s,
        None => return Err(CredentialError::MalformedCache(EXPIRY_POINTER.to_owned())),
    };
    Ok(
        ExecCredential {
            api_version,
            kind,
            status: ExecCredentialStatus { token, expiration_timestamp },
        },
    )
}

/// Builds a fresh credential from what the authentication helper wrote on its
/// standard output and on its error stream.
pub fn credential_from_helper(stdout: &str, stderr: &str) -> (r: Result<
    ExecCredential,
    CredentialError,
>)
    ensures
        credential_outcome(r) == from_helper(stdout@, stderr@),
{
    if !stderr.is_empty() {
        return Err(CredentialError::AuthHelper(stderr.to_owned()));
    }
    if !parses_as_json(stdout) {
        return Err(CredentialError::MalformedHelperOutput(String::new()));
    }
    let token = match str_at(stdout, HELPER_TOKEN_POINTER) {
        Some(s) => s,
        None => return Err(CredentialError::MalformedHelperOutput(HELPER_TOKEN_POINTER.to_owned())),
    };
    let expiry = match str_at(stdout, HELPER_EXPIRY_POINTER) {
        Some(s) => s,
        None => return Err(
            CredentialError::MalformedHelperOutput(HELPER_EXPIRY_POINTER.to_owned()),
        ),
    };
    Ok(new_credential(token, expiry))
}

} // verus!
