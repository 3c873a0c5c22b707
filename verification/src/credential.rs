//! The bearer credential: its two kinds, and the shape of an API token.
//!
//! An API token reads `patrv1.<login id>.<secret>`: the prefix, then the
//! text up to the first dot after it, then the rest, each of the two an id.

use crate::error::ErrorType;
use crate::ids::parse_uuid;
use crate::ids::uuid_of_text;
use vstd::prelude::*;

verus! {

/// The kind of client that a route accepts, which decides how the bearer
/// credential is read: a session token from the web dashboard, or an API
/// token from another application.
#[derive(Debug, Clone, Copy, PartialEq, Eq, Structural)]
pub enum ClientType {
    /// The request carries a signed session token.
    WebDashboard,
    /// The request carries an API token.
    ApiToken,
}

/// The credential of one request.
#[derive(Debug, Clone, PartialEq, Eq)]
pub enum Credential {
    /// A signed session token, not yet decoded.
    Session { token: String },
    /// An API token: the login it names and the secret it presents.
    ApiToken { login_id: u128, secret: u128 },
}

/// The mathematical value of a [`Credential`].
pub enum CredentialView {
    Session { token: Seq<char> },
    ApiToken { login_id: u128, secret: u128 },
}

impl View for Credential {
    type V = CredentialView;

    open spec fn view(&self) -> CredentialView {
        match self {
            Credential::Session { token } => CredentialView::Session { token: token@ },
            Credential::ApiToken { login_id, secret } => CredentialView::ApiToken {
                login_id: *login_id,
                secret: *secret,
            },
        }
    }
}

/// The text that every API token starts with.
pub open spec fn api_token_prefix() -> Seq<char> {
    seq!['p', 'a', 't', 'r', 'v', '1', '.']
}

/// Whether the first dot of `text` is at `at`.
pub open spec fn first_dot_at(text: Seq<char>, at: int) -> bool {
    &&& 0 <= at < text.len()
    &&& text[at] == '.'
    &&& forall|j: int| 0 <= j < at ==> text[j] != '.'
}

/// Whether `text` holds a dot.
pub open spec fn has_dot(text: Seq<char>) -> bool {
    exists|at: int| first_dot_at(text, at)
}

/// Where the first dot of `text` is, if it holds one.
pub open spec fn first_dot(text: Seq<char>) -> int {
    choose|at: int| first_dot_at(text, at)
}

/// The two fields of an API token: what stands between the prefix and the
/// first dot after it, and what follows that dot. `None` where the prefix
/// or the dot is missing.
pub open spec fn api_token_fields(token: Seq<char>) -> Option<(Seq<char>, Seq<char>)> {
    let rest = token.skip(api_token_prefix().len() as int);
    if api_token_prefix().is_prefix_of(token) && has_dot(rest) {
        Some((rest.take(first_dot(rest)), rest.skip(first_dot(rest) + 1)))
    } else {
        None
    }
}

/// The credential that two fields give, each read as an id or not at all.
pub open spec fn credential_of_ids(login_id: Option<u128>, secret: Option<u128>) -> Result<
    CredentialView,
    ErrorType,
> {
    match (login_id, secret) {
        (Some(login_id), Some(secret)) => Ok(CredentialView::ApiToken { login_id, secret }),
        _ => Err(ErrorType::MalformedApiToken),
    }
}

/// The credential that an API token spells, or `MalformedApiToken`.
pub open spec fn api_token_credential(token: Seq<char>) -> Result<CredentialView, ErrorType> {
    match api_token_fields(token) {
        Some((login_id, secret)) => credential_of_ids(uuid_of_text(login_id), uuid_of_text(secret)),
        None => Err(ErrorType::MalformedApiToken),
    }
}

/// The view of a parsed credential, or the error.
pub open spec fn credential_view(parsed: Result<Credential, ErrorType>) -> Result<
    CredentialView,
    ErrorType,
> {
    match parsed {
        Ok(credential) => Ok(credential@),
        Err(error) => Err(error),
    }
}

/// Whether `token` starts with the prefix of API tokens.
fn has_api_token_prefix(token: &str) -> (found: bool)
    ensures
        found == api_token_prefix().is_prefix_of(token@),
{
    let prefix = "patrv1.";
    proof {
        reveal_strlit("patrv1.");
    }
    if token.unicode_len() < 7 {
        return false;
    }
    let mut i: usize = 0;
    while i < 7
        invariant
            i <= 7,
            7 <= token@.len(),
            prefix@ == api_token_prefix(),
            forall|j: int| 0 <= j < i ==> token@[j] == api_token_prefix()[j],
        decreases 7 - i,
    {
        if token.get_char(i) != prefix.get_char(i) {
            return false;
        }
        i += 1;
    }
    true
}

/// Splits an API token into its two fields, without reading them.
pub fn split_api_token(token: &str) -> (fields: Option<(&str, &str)>)
    ensures
        match fields {
            Some((login_id, secret)) => api_token_fields(token@) == Some((login_id@, secret@)),
            None => api_token_fields(token@) is None,
        },
{
    if !has_api_token_prefix(token) {
        return None;
    }
    let len = token.unicode_len();
    let ghost rest = token@.skip(7);
    let mut at: usize = 7;
    while at < len
        invariant
            7 <= at <= len,
            len == token@.len(),
            rest == token@.skip(7),
            api_token_prefix().is_prefix_of(token@),
            forall|j: int| 0 <= j < at - 7 ==> rest[j] != '.',
        decreases len - at,
    {
        if token.get_char(at) == '.' {
            let login_id = token.substring_char(7, at);
            let secret = token.substring_char(at + 1, len);
            proof {
                assert(first_dot_at(rest, at - 7));
                let chosen = first_dot(rest);
            }
            return Some((login_id, secret));
        }
        at += 1;
    }
    None
}

/// The credential that two fields give, each read as an id or not at all:
/// an API token where both are ids, else `MalformedApiToken`.
pub fn credential_from_ids(login_id: Option<u128>, secret: Option<u128>) -> (parsed: Result<
    Credential,
    ErrorType,
>)
    ensures
        credential_view(parsed) == credential_of_ids(login_id, secret),
{
    match (login_id, secret) {
        (Some(login_id), Some(secret)) => Ok(Credential::ApiToken { login_id, secret }),
        _ => Err(ErrorType::MalformedApiToken),
    }
}

/// Reads an API token. Nothing but the text is consulted.
pub fn parse_api_token(token: &str) -> (parsed: Result<Credential, ErrorType>)
    ensures
        credential_view(parsed) == api_token_credential(token@),
{
    match split_api_token(token) {
        Some((login_id, secret)) => credential_from_ids(parse_uuid(login_id), parse_uuid(secret)),
        None => Err(ErrorType::MalformedApiToken),
    }
}

/// Reads the bearer credential as the kind of client asks: an API token is
/// parsed, a session token is passed on as it is.
pub fn read_credential(client_type: ClientType, bearer: &str) -> (parsed: Result<
    Credential,
    ErrorType,
>)
    ensures
        credential_view(parsed) == match client_type {
            ClientType::ApiToken => api_token_credential(bearer@),
            ClientType::WebDashboard => Ok(CredentialView::Session { token: bearer@ }),
        },
{
    match client_type {
        ClientType::ApiToken => parse_api_token(bearer),
        ClientType::WebDashboard => Ok(Credential::Session { token: bearer.to_string() }),
    }
}

} // verus!
