//! The authentication layer of a route, and the course of one
//! authentication.
//!
//! A layer is made for the kind of client that the route accepts. Its
//! service decides; the caller reads and writes. Each call of
//! [`AuthenticationService::call`] takes what the last read gave, as an
//! [`AuthEvent`], and answers with the next thing to do, an [`AuthStep`]:
//! a record or a marker to read, rows to fetch, a snapshot to store, or
//! the end, with an identity or an error.

use crate::cache::lookup_start;
use crate::cache::marker_applies;
use crate::cache::snapshot_view;
use crate::cache::CacheState;
use crate::cache::CacheStateView;
use crate::cache::RevocationKey;
use crate::cache::UserPermissionCache;
use crate::config::AuthConfig;
use crate::credential::api_token_credential;
use crate::credential::credential_view;
use crate::credential::parse_api_token;
use crate::credential::read_credential;
use crate::credential::ClientType;
use crate::credential::Credential;
use crate::credential::CredentialView;
use crate::error::ErrorType;
use crate::grants::resolved_grants;
use crate::grants::GrantSet;
use crate::grants::PermissionRow;
use crate::grants::WorkspaceGrant;
use crate::network::IpAddress;
use crate::token_state::api_token_verdict;
use crate::token_state::authenticate_api_token;
use crate::token_state::authenticate_web_login;
use crate::token_state::check_session_token;
use crate::token_state::session_token_verdict;
use crate::token_state::stored_secret_check;
use crate::token_state::web_login_verdict;
use crate::token_state::AccessTokenData;
use crate::token_state::Account;
use crate::token_state::ApiTokenRecord;
use crate::token_state::VerifiedLogin;
use crate::token_state::WebLoginRecord;
use vstd::prelude::*;

verus! {

/// The layer that authenticates the requests of one route.
#[derive(Debug, Clone, Copy, PartialEq, Eq, Structural)]
pub struct AuthenticationLayer {
    /// The kind of client that may call the route.
    pub client_type: ClientType,
}

/// The service that a layer puts before a route.
#[derive(Debug, Clone, Copy, PartialEq, Eq, Structural)]
pub struct AuthenticationService {
    /// The kind of client that may call the route.
    pub client_type: ClientType,
}

/// The identity of an authenticated request.
#[derive(Debug, Clone, PartialEq, Eq)]
pub struct RequestUserData {
    pub id: u128,
    pub username: String,
    pub first_name: String,
    pub last_name: String,
    pub created: i128,
    pub login_id: u128,
    pub permissions: GrantSet,
}

/// Where an authentication stands: what it waits for.
#[derive(Debug, Clone, PartialEq, Eq)]
pub enum AuthState {
    /// The bearer credential.
    Start,
    /// The record of the API token whose secret is `secret`.
    AwaitApiToken { secret: u128 },
    /// The claims of the session token.
    AwaitClaims,
    /// The record of the dashboard login that `claims` name.
    AwaitWebLogin { claims: AccessTokenData },
    /// The cached snapshot of the login's grants.
    AwaitSnapshot { login: VerifiedLogin },
    /// The marker under the pending key of `lookup`.
    Checking { login: VerifiedLogin, lookup: CacheState },
    /// The rows from which the grants are resolved.
    AwaitRows { login: VerifiedLogin },
    /// The word that `snapshot` has been stored.
    AwaitStore { login: VerifiedLogin, snapshot: UserPermissionCache },
    /// Nothing: the authentication has ended.
    Done,
}

/// What the caller hands to an authentication: what it was asked to get.
#[derive(Debug, Clone, PartialEq, Eq)]
pub enum AuthEvent {
    /// The bearer credential of the request.
    Bearer(String),
    /// What the store holds under the login id of an API token.
    ApiToken(Option<ApiTokenRecord>),
    /// What decoding the session token under the signing key gave; `None`
    /// where its signature or its structure is wrong.
    Claims(Option<AccessTokenData>),
    /// What the store holds under the login id of a dashboard login.
    WebLogin(Option<WebLoginRecord>),
    /// What the cache holds for the login; `None` on a miss, and where what
    /// it holds cannot be decoded.
    Snapshot(Option<UserPermissionCache>),
    /// What the cache holds under the revocation key asked for.
    Marker(Option<i64>),
    /// The rows read for the login: its super-admin workspaces, the rows
    /// that take resources away, the rows that give them.
    Rows { super_admins: Vec<u128>, excludes: Vec<PermissionRow>, includes: Vec<PermissionRow> },
    /// The snapshot has been stored.
    Stored,
    /// The read or the write asked for has failed.
    Failed,
}

/// What an authentication asks of the caller next.
#[derive(Debug, Clone, PartialEq, Eq)]
pub enum AuthStep {
    /// Read the record of the API token `login_id`, with its account.
    FetchApiToken { login_id: u128 },
    /// Decode the session token under the signing key, verifying nothing
    /// but its signature.
    DecodeToken { token: String },
    /// Read the record of the dashboard login `login_id`, with its account.
    FetchWebLogin { login_id: u128 },
    /// Read the cached snapshot of the login.
    ReadSnapshot { login_id: u128 },
    /// Read the revocation marker under `key`.
    ReadMarker { key: RevocationKey },
    /// Delete the marker under `consume`, if there is one, without regard
    /// to whether that succeeds; then read the rows of the login.
    Resolve { login_id: u128, consume: Option<RevocationKey> },
    /// Store the snapshot that the state holds under the login, to be kept
    /// for `ttl_seconds`.
    Store { login_id: u128, ttl_seconds: u64 },
    /// Hand the identity on: the request is authenticated.
    Accept(RequestUserData),
    /// Turn the request away.
    Reject(ErrorType),
}

/// The mathematical value of an [`AuthState`].
pub enum AuthStateView {
    Start,
    AwaitApiToken { secret: u128 },
    AwaitClaims,
    AwaitWebLogin { claims: AccessTokenData },
    AwaitSnapshot { login: VerifiedLogin },
    Checking { login: VerifiedLogin, lookup: CacheStateView },
    AwaitRows { login: VerifiedLogin },
    AwaitStore { login: VerifiedLogin, grants: Map<u128, WorkspaceGrant>, created: i128 },
    Done,
}

/// The mathematical value of an [`AuthEvent`].
pub enum AuthEventView {
    Bearer(Seq<char>),
    ApiToken(Option<ApiTokenRecord>),
    Claims(Option<AccessTokenData>),
    WebLogin(Option<WebLoginRecord>),
    Snapshot(Option<(Map<u128, WorkspaceGrant>, i128)>),
    Marker(Option<i64>),
    Rows { super_admins: Seq<u128>, excludes: Seq<PermissionRow>, includes: Seq<PermissionRow> },
    Stored,
    Failed,
}

/// The mathematical value of an [`AuthStep`].
pub enum AuthStepView {
    FetchApiToken { login_id: u128 },
    DecodeToken { token: Seq<char> },
    FetchWebLogin { login_id: u128 },
    ReadSnapshot { login_id: u128 },
    ReadMarker { key: RevocationKey },
    Resolve { login_id: u128, consume: Option<RevocationKey> },
    Store { login_id: u128, ttl_seconds: u64 },
    Accept { login: VerifiedLogin, grants: Map<u128, WorkspaceGrant> },
    Reject(ErrorType),
}

impl RequestUserData {
    /// The login that the identity is of.
    pub open spec fn login(&self) -> VerifiedLogin {
        VerifiedLogin {
            login_id: self.login_id,
            account: Account {
                id: self.id,
                username: self.username,
                first_name: self.first_name,
                last_name: self.last_name,
                created: self.created,
            },
        }
    }

    /// The identity of a verified login with its resolved grants.
    pub fn new(login: VerifiedLogin, permissions: GrantSet) -> (identity: RequestUserData)
        ensures
            identity.login() == login,
            identity.permissions == permissions,
    {
        RequestUserData {
            id: login.account.id,
            username: login.account.username,
            first_name: login.account.first_name,
            last_name: login.account.last_name,
            created: login.account.created,
            login_id: login.login_id,
            permissions,
        }
    }
}

impl View for AuthState {
    type V = AuthStateView;

    open spec fn view(&self) -> AuthStateView {
        match self {
            AuthState::Start => AuthStateView::Start,
            AuthState::AwaitApiToken { secret } => AuthStateView::AwaitApiToken { secret: *secret },
            AuthState::AwaitClaims => AuthStateView::AwaitClaims,
            AuthState::AwaitWebLogin { claims } => AuthStateView::AwaitWebLogin { claims: *claims },
            AuthState::AwaitSnapshot { login } => AuthStateView::AwaitSnapshot { login: *login },
            AuthState::Checking { login, lookup } => AuthStateView::Checking {
                login: *login,
                lookup: lookup@,
            },
            AuthState::AwaitRows { login } => AuthStateView::AwaitRows { login: *login },
            AuthState::AwaitStore { login, snapshot } => AuthStateView::AwaitStore {
                login: *login,
                grants: snapshot.permission@,
                created: snapshot.creation_time,
            },
            AuthState::Done => AuthStateView::Done,
        }
    }
}

impl View for AuthEvent {
    type V = AuthEventView;

    open spec fn view(&self) -> AuthEventView {
        match self {
            AuthEvent::Bearer(bearer) => AuthEventView::Bearer(bearer@),
            AuthEvent::ApiToken(record) => AuthEventView::ApiToken(*record),
            AuthEvent::Claims(decoded) => AuthEventView::Claims(*decoded),
            AuthEvent::WebLogin(record) => AuthEventView::WebLogin(*record),
            AuthEvent::Snapshot(snapshot) => AuthEventView::Snapshot(snapshot_view(*snapshot)),
            AuthEvent::Marker(reading) => AuthEventView::Marker(*reading),
            AuthEvent::Rows { super_admins, excludes, includes } => AuthEventView::Rows {
                super_admins: super_admins@,
                excludes: excludes@,
                includes: includes@,
            },
            AuthEvent::Stored => AuthEventView::Stored,
            AuthEvent::Failed => AuthEventView::Failed,
        }
    }
}

impl View for AuthStep {
    type V = AuthStepView;

    open spec fn view(&self) -> AuthStepView {
        match self {
            AuthStep::FetchApiToken { login_id } => AuthStepView::FetchApiToken {
                login_id: *login_id,
            },
            AuthStep::DecodeToken { token } => AuthStepView::DecodeToken { token: token@ },
            AuthStep::FetchWebLogin { login_id } => AuthStepView::FetchWebLogin {
                login_id: *login_id,
            },
            AuthStep::ReadSnapshot { login_id } => AuthStepView::ReadSnapshot {
                login_id: *login_id,
            },
            AuthStep::ReadMarker { key } => AuthStepView::ReadMarker { key: *key },
            AuthStep::Resolve { login_id, consume } => AuthStepView::Resolve {
                login_id: *login_id,
                consume: *consume,
            },
            AuthStep::Store { login_id, ttl_seconds } => AuthStepView::Store {
                login_id: *login_id,
                ttl_seconds: *ttl_seconds,
            },
            AuthStep::Accept(identity) => AuthStepView::Accept {
                login: identity.login(),
                grants: identity.permissions@,
            },
            AuthStep::Reject(error) => AuthStepView::Reject(*error),
        }
    }
}

impl AuthStateView {
    /// A lookup that is checking always has a key to read.
    pub open spec fn wf(self) -> bool {
        self matches AuthStateView::Checking { lookup, .. } ==> lookup is Checking && lookup.wf()
    }
}

impl AuthStepView {
    /// Whether the step reads from or writes to the store or the cache.
    pub open spec fn touches_store(self) -> bool {
        !(self is DecodeToken || self is Accept || self is Reject)
    }
}

/// The end of an authentication that is turned away.
pub open spec fn rejected(error: ErrorType) -> (AuthStateView, AuthStepView) {
    (AuthStateView::Done, AuthStepView::Reject(error))
}

/// What follows the verification of a login: its snapshot is read.
pub open spec fn after_login(login: Result<VerifiedLogin, ErrorType>) -> (
    AuthStateView,
    AuthStepView,
) {
    match login {
        Ok(login) => (
            AuthStateView::AwaitSnapshot { login },
            AuthStepView::ReadSnapshot { login_id: login.login_id },
        ),
        Err(error) => rejected(error),
    }
}

/// What follows a move of the cache lookup: the next marker is read, or
/// the cached grants are the login's, or they are to be resolved anew.
pub open spec fn after_lookup(login: VerifiedLogin, lookup: CacheStateView) -> (
    AuthStateView,
    AuthStepView,
) {
    match lookup {
        CacheStateView::Checking { keys, position, .. } => (
            AuthStateView::Checking { login, lookup },
            AuthStepView::ReadMarker { key: keys[position] },
        ),
        CacheStateView::Fresh { grants } => (
            AuthStateView::Done,
            AuthStepView::Accept { login, grants },
        ),
        CacheStateView::Stale { consumed } => (
            AuthStateView::AwaitRows { login },
            AuthStepView::Resolve { login_id: login.login_id, consume: consumed },
        ),
    }
}

/// What follows the bearer credential: an API token is parsed and its
/// record asked for; a session token is handed to the decoder as it is.
pub open spec fn after_bearer(client_type: ClientType, bearer: Seq<char>) -> (
    AuthStateView,
    AuthStepView,
) {
    match client_type {
        ClientType::WebDashboard => (
            AuthStateView::AwaitClaims,
            AuthStepView::DecodeToken { token: bearer },
        ),
        ClientType::ApiToken => match api_token_credential(bearer) {
            Ok(CredentialView::ApiToken { login_id, secret }) => (
                AuthStateView::AwaitApiToken { secret },
                AuthStepView::FetchApiToken { login_id },
            ),
            Ok(CredentialView::Session { .. }) => rejected(ErrorType::MalformedApiToken),
            Err(error) => rejected(error),
        },
    }
}

/// What follows the claims of a session token: where they are in order,
/// the record of the login that they name is asked for.
pub open spec fn after_claims(decoded: Option<AccessTokenData>, now: i128, config: AuthConfig) -> (
    AuthStateView,
    AuthStepView,
) {
    match session_token_verdict(decoded, now, config) {
        Err(error) => rejected(error),
        Ok(()) => match decoded {
            Some(claims) => (
                AuthStateView::AwaitWebLogin { claims },
                AuthStepView::FetchWebLogin { login_id: claims.sub },
            ),
            None => rejected(ErrorType::MalformedAccessToken),
        },
    }
}

/// The state and the step after `event`. Each state takes the event that
/// it waits for. A read or write that failed, an event out of turn, any
/// event after the end, and a state that is not well formed are faults of
/// the server.
pub open spec fn advanced(
    client_type: ClientType,
    state: AuthStateView,
    event: AuthEventView,
    client_ip: IpAddress,
    now: i128,
    config: AuthConfig,
) -> (AuthStateView, AuthStepView) {
    if !state.wf() {
        rejected(ErrorType::ServerError)
    } else {
        advanced_in_turn(client_type, state, event, client_ip, now, config)
    }
}

/// The state and the step after `event` in a state that is well formed.
pub open spec fn advanced_in_turn(
    client_type: ClientType,
    state: AuthStateView,
    event: AuthEventView,
    client_ip: IpAddress,
    now: i128,
    config: AuthConfig,
) -> (AuthStateView, AuthStepView) {
    match (state, event) {
        (AuthStateView::Start, AuthEventView::Bearer(bearer)) => after_bearer(client_type, bearer),
        (AuthStateView::AwaitApiToken { secret }, AuthEventView::ApiToken(record)) => after_login(
            api_token_verdict(
                record,
                client_ip,
                now,
                stored_secret_check(
                    record,
                    secret,
                    vstd::utf8::encode_utf8(config.password_pepper@),
                ),
            ),
        ),
        (AuthStateView::AwaitClaims, AuthEventView::Claims(decoded)) => after_claims(
            decoded,
            now,
            config,
        ),
        (AuthStateView::AwaitWebLogin { claims }, AuthEventView::WebLogin(record)) => after_login(
            web_login_verdict(record, claims, now, config),
        ),
        (AuthStateView::AwaitSnapshot { login }, AuthEventView::Snapshot(snapshot)) => after_lookup(
            login,
            lookup_start(snapshot, login.account.id, login.login_id),
        ),
        (AuthStateView::Checking { login, lookup }, AuthEventView::Marker(reading)) => after_lookup(
            login,
            lookup.observed(reading),
        ),
        (
            AuthStateView::AwaitRows { login },
            AuthEventView::Rows { super_admins, excludes, includes },
        ) => (
            AuthStateView::AwaitStore {
                login,
                grants: resolved_grants(super_admins, excludes, includes),
                created: now,
            },
            AuthStepView::Store {
                login_id: login.login_id,
                ttl_seconds: config.cached_permissions_validity,
            },
        ),
        (AuthStateView::AwaitStore { login, grants, .. }, AuthEventView::Stored) => (
            AuthStateView::Done,
            AuthStepView::Accept { login, grants },
        ),
        _ => rejected(ErrorType::ServerError),
    }
}

impl AuthState {
    /// Whether a lookup in progress has a key to read.
    pub fn is_wf(&self) -> (ok: bool)
        ensures
            ok == self@.wf(),
    {
        match self {
            AuthState::Checking { login: _, lookup } => match lookup {
                CacheState::Checking { snapshot: _, keys, position } => *position < keys.len(),
                _ => false,
            },
            _ => true,
        }
    }
}

impl AuthenticationLayer {
    /// The layer for routes that accept `client_type`.
    pub fn new(client_type: ClientType) -> (layer: AuthenticationLayer)
        ensures
            layer == (AuthenticationLayer { client_type }),
    {
        AuthenticationLayer { client_type }
    }

    /// The service of this layer: it accepts the same kind of client.
    pub fn layer(&self) -> (service: AuthenticationService)
        ensures
            service == (AuthenticationService { client_type: self.client_type }),
    {
        AuthenticationService { client_type: self.client_type }
    }
}

/// The state and the step of an authentication that is turned away.
fn reject(error: ErrorType) -> (out: (AuthState, AuthStep))
    ensures
        (out.0@, out.1@) == rejected(error),
{
    (AuthState::Done, AuthStep::Reject(error))
}

/// The state and the step after the verification of a login.
fn proceed_with_login(login: Result<VerifiedLogin, ErrorType>) -> (out: (AuthState, AuthStep))
    ensures
        (out.0@, out.1@) == after_login(login),
        out.0@.wf(),
{
    match login {
        Ok(login) => {
            let login_id = login.login_id;
            (AuthState::AwaitSnapshot { login }, AuthStep::ReadSnapshot { login_id })
        },
        Err(error) => reject(error),
    }
}

/// The state and the step after a move of the cache lookup.
fn proceed_with_lookup(login: VerifiedLogin, lookup: CacheState) -> (out: (AuthState, AuthStep))
    requires
        lookup@.wf(),
    ensures
        (out.0@, out.1@) == after_lookup(login, lookup@),
        out.0@.wf(),
{
    match lookup {
        CacheState::Checking { snapshot, keys, position } => {
            let key = keys[position];
            (
                AuthState::Checking {
                    login,
                    lookup: CacheState::Checking { snapshot, keys, position },
                },
                AuthStep::ReadMarker { key },
            )
        },
        CacheState::Fresh { permission } => (
            AuthState::Done,
            AuthStep::Accept(RequestUserData::new(login, permission)),
        ),
        CacheState::Stale { consumed } => {
            let login_id = login.login_id;
            (AuthState::AwaitRows { login }, AuthStep::Resolve { login_id, consume: consumed })
        },
    }
}

impl AuthenticationService {
    /// Reads the bearer credential of a request as the route's kind of
    /// client asks. Nothing is looked up.
    pub fn credential(&self, bearer: &str) -> (parsed: Result<Credential, ErrorType>)
        ensures
            credential_view(parsed) == match self.client_type {
                ClientType::ApiToken => api_token_credential(bearer@),
                ClientType::WebDashboard => Ok(CredentialView::Session { token: bearer@ }),
            },
    {
        read_credential(self.client_type, bearer)
    }

    /// Moves an authentication on by one event. `client_ip` is the address
    /// that the request came from, `now` the instant of the call.
    pub fn call(
        &self,
        state: AuthState,
        event: AuthEvent,
        client_ip: IpAddress,
        now: i128,
        config: &AuthConfig,
    ) -> (out: (AuthState, AuthStep))
        ensures
            (out.0@, out.1@) == advanced(self.client_type, state@, event@, client_ip, now, *config),
            out.0@.wf(),
    {
        if !state.is_wf() {
            return reject(ErrorType::ServerError);
        }
        match (state, event) {
            (AuthState::Start, AuthEvent::Bearer(bearer)) => {
                match self.client_type {
                    ClientType::WebDashboard => (
                        AuthState::AwaitClaims,
                        AuthStep::DecodeToken { token: bearer },
                    ),
                    ClientType::ApiToken => match parse_api_token(bearer.as_str()) {
                        Ok(Credential::ApiToken { login_id, secret }) => (
                            AuthState::AwaitApiToken { secret },
                            AuthStep::FetchApiToken { login_id },
                        ),
                        Ok(Credential::Session { token: _ }) => reject(
                            ErrorType::MalformedApiToken,
                        ),
                        Err(error) => reject(error),
                    },
                }
            },
            (AuthState::AwaitApiToken { secret }, AuthEvent::ApiToken(record)) => {
                proceed_with_login(
                    authenticate_api_token(
                        record,
                        secret,
                        client_ip,
                        now,
                        config.password_pepper.as_str().as_bytes(),
                    ),
                )
            },
            (AuthState::AwaitClaims, AuthEvent::Claims(decoded)) => {
                match check_session_token(decoded.as_ref(), now, config) {
                    Err(error) => reject(error),
                    Ok(()) => match decoded {
                        Some(claims) => {
                            let login_id = claims.sub;
                            (
                                AuthState::AwaitWebLogin { claims },
                                AuthStep::FetchWebLogin { login_id },
                            )
                        },
                        None => reject(ErrorType::MalformedAccessToken),
                    },
                }
            },
            (AuthState::AwaitWebLogin { claims }, AuthEvent::WebLogin(record)) => {
                proceed_with_login(authenticate_web_login(record, &claims, now, config))
            },
            (AuthState::AwaitSnapshot { login }, AuthEvent::Snapshot(snapshot)) => {
                let lookup = CacheState::start(snapshot, login.account.id, login.login_id);
                proceed_with_lookup(login, lookup)
            },
            (AuthState::Checking { login, lookup }, AuthEvent::Marker(reading)) => {
                let lookup = lookup.observe(reading);
                proceed_with_lookup(login, lookup)
            },
            (
                AuthState::AwaitRows { login },
                AuthEvent::Rows { super_admins, excludes, includes },
            ) => {
                let snapshot = UserPermissionCache::resolve(
                    &super_admins,
                    &excludes,
                    &includes,
                    now,
                );
                let login_id = login.login_id;
                (
                    AuthState::AwaitStore { login, snapshot },
                    AuthStep::Store { login_id, ttl_seconds: config.snapshot_ttl() },
                )
            },
            (AuthState::AwaitStore { login, snapshot }, AuthEvent::Stored) => (
                AuthState::Done,
                AuthStep::Accept(RequestUserData::new(login, snapshot.permission)),
            ),
            _ => reject(ErrorType::ServerError),
        }
    }
}

/// A bearer credential that is no API token is turned away as malformed
/// at once: no record is asked for.
pub proof fn lemma_malformed_api_token_reads_nothing(
    bearer: Seq<char>,
    client_ip: IpAddress,
    now: i128,
    config: AuthConfig,
)
    requires
        api_token_credential(bearer) is Err,
    ensures
        advanced(
            ClientType::ApiToken,
            AuthStateView::Start,
            AuthEventView::Bearer(bearer),
            client_ip,
            now,
            config,
        ) == rejected(ErrorType::MalformedApiToken),
        !rejected(ErrorType::MalformedApiToken).1.touches_store(),
{
}

/// A session token is handed to the decoder before anything is read, and
/// one whose claims name another issuer is turned away as malformed when
/// the claims come back: no record is asked for.
pub proof fn lemma_wrong_issuer_reads_nothing(
    bearer: Seq<char>,
    claims: AccessTokenData,
    client_ip: IpAddress,
    now: i128,
    config: AuthConfig,
)
    requires
        claims.iss@ != config.jwt_issuer@,
    ensures
        advanced(
            ClientType::WebDashboard,
            AuthStateView::Start,
            AuthEventView::Bearer(bearer),
            client_ip,
            now,
            config,
        ) == (AuthStateView::AwaitClaims, AuthStepView::DecodeToken { token: bearer }),
        advanced(
            ClientType::WebDashboard,
            AuthStateView::AwaitClaims,
            AuthEventView::Claims(Some(claims)),
            client_ip,
            now,
            config,
        ) == rejected(ErrorType::MalformedAccessToken),
        !rejected(ErrorType::MalformedAccessToken).1.touches_store(),
{
}

/// An authentication ends when it accepts or rejects, and only then; after
/// its end every event is answered with a rejection.
pub proof fn lemma_ends_with_accept_or_reject(
    client_type: ClientType,
    state: AuthStateView,
    event: AuthEventView,
    client_ip: IpAddress,
    now: i128,
    config: AuthConfig,
)
    ensures
        ({
            let (next, step) = advanced(client_type, state, event, client_ip, now, config);
            &&& next is Done <==> (step is Accept || step is Reject)
            &&& state is Done ==> next is Done && step == AuthStepView::Reject(
                ErrorType::ServerError,
            )
            &&& next.wf()
        }),
{
}

/// The grants of an accepted request are those of a cached snapshot that
/// no marker revoked, or those resolved from the rows just read.
pub proof fn lemma_accepted_grants_are_cached_or_resolved(
    client_type: ClientType,
    state: AuthStateView,
    event: AuthEventView,
    client_ip: IpAddress,
    now: i128,
    config: AuthConfig,
)
    requires
        advanced(client_type, state, event, client_ip, now, config).1 is Accept,
    ensures
        ({
            let step = advanced(client_type, state, event, client_ip, now, config).1;
            match state {
                AuthStateView::Checking { login, lookup } => {
                    &&& lookup matches CacheStateView::Checking { grants, created, .. }
                    &&& event matches AuthEventView::Marker(reading)
                    &&& !marker_applies(created, reading)
                    &&& step == (AuthStepView::Accept { login, grants })
                },
                AuthStateView::AwaitStore { login, grants, .. } => step == (AuthStepView::Accept {
                    login,
                    grants,
                }),
                _ => false,
            }
        }),
{
}

} // verus!
