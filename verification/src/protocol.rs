//! One authentication carried to its end against what the stores hold.
//!
//! The service only decides. Here its decisions are put together with the
//! answers of the stores, as ghost values, to say what a whole
//! authentication comes to: which identity is accepted, with which grants,
//! and what it leaves behind in the cache.

use crate::authenticator::advanced;
use crate::authenticator::AuthEventView;
use crate::authenticator::AuthStateView;
use crate::authenticator::AuthStepView;
use crate::cache::ledger_keys;
use crate::cache::lemma_settle;
use crate::cache::lookup_start;
use crate::cache::none_applicable;
use crate::cache::reading_of;
use crate::cache::settle;
use crate::cache::CacheStateView;
use crate::cache::RevocationKey;
use crate::config::AuthConfig;
use crate::credential::api_token_credential;
use crate::credential::ClientType;
use crate::credential::CredentialView;
use crate::error::ErrorType;
use crate::grants::listing;
use crate::grants::resolved_grants;
use crate::grants::PermissionRow;
use crate::grants::WorkspaceGrant;
use crate::network::address_allowed;
use crate::network::IpAddress;
use crate::token_state::allow_list;
use crate::token_state::api_token_current;
use crate::token_state::session_token_verdict;
use crate::token_state::stored_secret_check;
use crate::token_state::AccessTokenData;
use crate::token_state::ApiTokenRecord;
use crate::token_state::VerifiedLogin;
use crate::token_state::WebLoginRecord;
use vstd::prelude::*;

verus! {

/// The rows that the relational store holds for one login.
pub struct LoginRows {
    pub super_admins: Seq<u128>,
    pub excludes: Seq<PermissionRow>,
    pub includes: Seq<PermissionRow>,
}

/// What the stores hold at one moment.
pub struct Stores {
    /// The records of API tokens, by login id.
    pub api_tokens: Map<u128, ApiTokenRecord>,
    /// The records of dashboard logins, by login id.
    pub web_logins: Map<u128, WebLoginRecord>,
    /// The claims of the session tokens that decode under the signing key.
    pub claims: Map<Seq<char>, AccessTokenData>,
    /// The cached snapshots, by login id.
    pub snapshots: Map<u128, (Map<u128, WorkspaceGrant>, i128)>,
    /// The revocation markers.
    pub markers: Map<RevocationKey, i64>,
    /// The rows of each login.
    pub rows: Map<u128, LoginRows>,
}

/// What a map holds under a key, if anything.
pub open spec fn held<K, V>(map: Map<K, V>, key: K) -> Option<V> {
    if map.contains_key(key) {
        Some(map[key])
    } else {
        None
    }
}

impl Stores {
    /// The grants that the rows of `login_id` resolve to. A login without
    /// rows has no grants.
    pub open spec fn resolved(self, login_id: u128) -> Map<u128, WorkspaceGrant> {
        match held(self.rows, login_id) {
            Some(rows) => resolved_grants(rows.super_admins, rows.excludes, rows.includes),
            None => resolved_grants(Seq::empty(), Seq::empty(), Seq::empty()),
        }
    }

    /// The event with which the stores answer `step`, asked in `state`, and
    /// what they hold afterwards. Reads change nothing; resolving deletes
    /// the consumed marker; storing puts the snapshot of the state under
    /// the login.
    pub open spec fn answer(self, state: AuthStateView, step: AuthStepView) -> (
        AuthEventView,
        Stores,
    ) {
        match step {
            AuthStepView::FetchApiToken { login_id } => (
                AuthEventView::ApiToken(held(self.api_tokens, login_id)),
                self,
            ),
            AuthStepView::DecodeToken { token } => (
                AuthEventView::Claims(held(self.claims, token)),
                self,
            ),
            AuthStepView::FetchWebLogin { login_id } => (
                AuthEventView::WebLogin(held(self.web_logins, login_id)),
                self,
            ),
            AuthStepView::ReadSnapshot { login_id } => (
                AuthEventView::Snapshot(held(self.snapshots, login_id)),
                self,
            ),
            AuthStepView::ReadMarker { key } => (
                AuthEventView::Marker(reading_of(self.markers, key)),
                self,
            ),
            AuthStepView::Resolve { login_id, consume } => (
                match held(self.rows, login_id) {
                    Some(rows) => AuthEventView::Rows {
                        super_admins: rows.super_admins,
                        excludes: rows.excludes,
                        includes: rows.includes,
                    },
                    None => AuthEventView::Rows {
                        super_admins: Seq::empty(),
                        excludes: Seq::empty(),
                        includes: Seq::empty(),
                    },
                },
                match consume {
                    Some(key) => Stores { markers: self.markers.remove(key), ..self },
                    None => self,
                },
            ),
            AuthStepView::Store { login_id, .. } => match state {
                AuthStateView::AwaitStore { grants, created, .. } => (
                    AuthEventView::Stored,
                    Stores {
                        snapshots: self.snapshots.insert(login_id, (grants, created)),
                        ..self
                    },
                ),
                _ => (AuthEventView::Failed, self),
            },
            _ => (AuthEventView::Failed, self),
        }
    }
}

/// The last step of an authentication that takes `event` in `state` and
/// then performs, against `stores`, up to `fuel` of the steps that the
/// service asks for, with what the stores hold at the end. The whole of it
/// happens at the one instant `now`.
pub open spec fn carried(
    client_type: ClientType,
    state: AuthStateView,
    event: AuthEventView,
    stores: Stores,
    client_ip: IpAddress,
    now: i128,
    config: AuthConfig,
    fuel: nat,
) -> (AuthStepView, Stores)
    decreases fuel,
{
    let (next, step) = advanced(client_type, state, event, client_ip, now, config);
    if step is Accept || step is Reject || fuel == 0 {
        (step, stores)
    } else {
        let (answered, after) = stores.answer(next, step);
        carried(client_type, next, answered, after, client_ip, now, config, (fuel - 1) as nat)
    }
}

/// The acceptance of `login` with the grants that a cache lookup ending in
/// `end` gives, and what the stores hold afterwards: after a fresh end the
/// cached grants and the stores as they were; after a stale end the
/// grants resolved from the rows, stored as the login's snapshot made at
/// `now`, with `markers` left.
pub open spec fn served(
    login: VerifiedLogin,
    end: CacheStateView,
    markers: Map<RevocationKey, i64>,
    stores: Stores,
    now: i128,
) -> (AuthStepView, Stores) {
    match end {
        CacheStateView::Fresh { grants } => (AuthStepView::Accept { login, grants }, stores),
        _ => (
            AuthStepView::Accept { login, grants: stores.resolved(login.login_id) },
            Stores {
                markers,
                snapshots: stores.snapshots.insert(
                    login.login_id,
                    (stores.resolved(login.login_id), now),
                ),
                ..stores
            },
        ),
    }
}

/// What a verified login is served against `stores`: the cache lookup is
/// carried to its end, and the grants are those cached or those resolved.
pub open spec fn login_served(login: VerifiedLogin, stores: Stores, now: i128) -> (
    AuthStepView,
    Stores,
) {
    let start = lookup_start(
        held(stores.snapshots, login.login_id),
        login.account.id,
        login.login_id,
    );
    let (end, markers) = settle(start, stores.markers);
    served(login, end, markers, stores, now)
}

/// The steps that serving `login` may take: one for each key of the
/// ledger of its snapshot, and four more.
pub open spec fn steps_to_serve(login: VerifiedLogin, stores: Stores) -> nat {
    match held(stores.snapshots, login.login_id) {
        Some((grants, _)) => ledger_keys(
            login.account.id,
            login.login_id,
            listing(grants.dom()),
        ).len() + 4,
        None => 4,
    }
}

/// From the resolution on, an authentication stores what it resolved and
/// accepts.
proof fn lemma_resolution_is_stored(
    client_type: ClientType,
    login: VerifiedLogin,
    consume: Option<RevocationKey>,
    stores: Stores,
    client_ip: IpAddress,
    now: i128,
    config: AuthConfig,
    fuel: nat,
)
    requires
        fuel >= 2,
    ensures
        ({
            let (answered, after) = stores.answer(
                AuthStateView::AwaitRows { login },
                AuthStepView::Resolve { login_id: login.login_id, consume },
            );
            carried(
                client_type,
                AuthStateView::AwaitRows { login },
                answered,
                after,
                client_ip,
                now,
                config,
                fuel,
            ) == served(
                login,
                CacheStateView::Stale { consumed: consume },
                match consume {
                    Some(key) => stores.markers.remove(key),
                    None => stores.markers,
                },
                stores,
                now,
            )
        }),
{
    let waiting = AuthStateView::AwaitRows { login };
    let (answered, after) = stores.answer(
        waiting,
        AuthStepView::Resolve { login_id: login.login_id, consume },
    );
    let grants = stores.resolved(login.login_id);
    let (storing, store) = advanced(client_type, waiting, answered, client_ip, now, config);
    let (stored, last) = after.answer(storing, store);
    assert(carried(client_type, storing, stored, last, client_ip, now, config, (fuel - 1) as nat)
        == (AuthStepView::Accept { login, grants }, last));
}

/// From any key of the ledger on, an authentication comes to what the
/// rest of the cache lookup gives.
proof fn lemma_checking_is_served(
    client_type: ClientType,
    login: VerifiedLogin,
    grants: Map<u128, WorkspaceGrant>,
    created: i128,
    keys: Seq<RevocationKey>,
    position: int,
    stores: Stores,
    client_ip: IpAddress,
    now: i128,
    config: AuthConfig,
    fuel: nat,
)
    requires
        0 <= position < keys.len(),
        fuel >= keys.len() - position + 2,
    ensures
        ({
            let lookup = CacheStateView::Checking { grants, created, keys, position };
            let (end, markers) = settle(lookup, stores.markers);
            carried(
                client_type,
                AuthStateView::Checking { login, lookup },
                AuthEventView::Marker(reading_of(stores.markers, keys[position])),
                stores,
                client_ip,
                now,
                config,
                fuel,
            ) == served(login, end, markers, stores, now)
        }),
    decreases keys.len() - position,
{
    let lookup = CacheStateView::Checking { grants, created, keys, position };
    let reading = reading_of(stores.markers, keys[position]);
    let moved = lookup.observed(reading);
    match moved {
        CacheStateView::Checking { .. } => {
            lemma_checking_is_served(
                client_type,
                login,
                grants,
                created,
                keys,
                position + 1,
                stores,
                client_ip,
                now,
                config,
                (fuel - 1) as nat,
            );
        },
        CacheStateView::Fresh { .. } => {},
        CacheStateView::Stale { consumed } => {
            lemma_resolution_is_stored(
                client_type,
                login,
                consumed,
                stores,
                client_ip,
                now,
                config,
                (fuel - 1) as nat,
            );
        },
    }
}

/// Once a login is verified, the authentication accepts it: with the
/// cached grants where a snapshot is cached that no marker revokes, and
/// else with the grants resolved from the rows, which it leaves cached in
/// place of what was there, the marker that it consumed deleted.
pub proof fn lemma_verified_login_is_served(
    client_type: ClientType,
    login: VerifiedLogin,
    stores: Stores,
    client_ip: IpAddress,
    now: i128,
    config: AuthConfig,
    fuel: nat,
)
    requires
        fuel >= steps_to_serve(login, stores),
    ensures
        carried(
            client_type,
            AuthStateView::AwaitSnapshot { login },
            AuthEventView::Snapshot(held(stores.snapshots, login.login_id)),
            stores,
            client_ip,
            now,
            config,
            fuel,
        ) == login_served(login, stores, now),
{
    let cached = held(stores.snapshots, login.login_id);
    match cached {
        None => {
            lemma_resolution_is_stored(
                client_type,
                login,
                None,
                stores,
                client_ip,
                now,
                config,
                (fuel - 1) as nat,
            );
        },
        Some((grants, created)) => {
            let keys = ledger_keys(login.account.id, login.login_id, listing(grants.dom()));
            lemma_checking_is_served(
                client_type,
                login,
                grants,
                created,
                keys,
                0,
                stores,
                client_ip,
                now,
                config,
                (fuel - 1) as nat,
            );
        },
    }
}

/// An API token that names a record which is current, comes from an
/// allowed address and presents the secret of the record is authenticated
/// as the login of the record, and served its cached or resolved grants.
pub proof fn lemma_valid_api_token_is_authenticated(
    bearer: Seq<char>,
    stores: Stores,
    client_ip: IpAddress,
    now: i128,
    config: AuthConfig,
    fuel: nat,
)
    requires
        api_token_credential(bearer) matches Ok(CredentialView::ApiToken { login_id, secret })
            && held(stores.api_tokens, login_id) matches Some(record) && {
            &&& api_token_current(record, now)
            &&& address_allowed(allow_list(record.allowed_ips), client_ip)
            &&& stored_secret_check(
                Some(record),
                secret,
                vstd::utf8::encode_utf8(config.password_pepper@),
            ) == Ok::<bool, ErrorType>(true)
            &&& fuel >= 2 + steps_to_serve(
                VerifiedLogin { login_id: record.token_id, account: record.account },
                stores,
            )
        },
    ensures
        api_token_credential(bearer) matches Ok(CredentialView::ApiToken { login_id, .. })
            && carried(
            ClientType::ApiToken,
            AuthStateView::Start,
            AuthEventView::Bearer(bearer),
            stores,
            client_ip,
            now,
            config,
            fuel,
        ) == login_served(
            VerifiedLogin {
                login_id: stores.api_tokens[login_id].token_id,
                account: stores.api_tokens[login_id].account,
            },
            stores,
            now,
        ),
{
    let (login_id, secret) = match api_token_credential(bearer) {
        Ok(CredentialView::ApiToken { login_id, secret }) => (login_id, secret),
        _ => (0, 0),
    };
    let record = stores.api_tokens[login_id];
    let login = VerifiedLogin { login_id: record.token_id, account: record.account };
    let (first, fetch) = advanced(
        ClientType::ApiToken,
        AuthStateView::Start,
        AuthEventView::Bearer(bearer),
        client_ip,
        now,
        config,
    );
    let (found, same) = stores.answer(first, fetch);
    lemma_verified_login_is_served(
        ClientType::ApiToken,
        login,
        stores,
        client_ip,
        now,
        config,
        (fuel - 2) as nat,
    );
    assert(carried(
        ClientType::ApiToken,
        first,
        found,
        stores,
        client_ip,
        now,
        config,
        (fuel - 1) as nat,
    ) == login_served(login, stores, now));
}

/// A session token that decodes to claims in order, for a login whose
/// record has not expired, and that lists the expected audience, is
/// authenticated as the login that the claims name, and served its cached
/// or resolved grants.
pub proof fn lemma_valid_session_is_authenticated(
    bearer: Seq<char>,
    stores: Stores,
    client_ip: IpAddress,
    now: i128,
    config: AuthConfig,
    fuel: nat,
)
    requires
        held(stores.claims, bearer) matches Some(claims) && held(stores.web_logins, claims.sub)
            matches Some(record) && {
            &&& session_token_verdict(Some(claims), now, config) is Ok
            &&& now <= record.token_expiry
            &&& claims.aud.names(config.jwt_audience@)
            &&& fuel >= 3 + steps_to_serve(
                VerifiedLogin { login_id: claims.sub, account: record.account },
                stores,
            )
        },
    ensures
        carried(
            ClientType::WebDashboard,
            AuthStateView::Start,
            AuthEventView::Bearer(bearer),
            stores,
            client_ip,
            now,
            config,
            fuel,
        ) == login_served(
            VerifiedLogin {
                login_id: stores.claims[bearer].sub,
                account: stores.web_logins[stores.claims[bearer].sub].account,
            },
            stores,
            now,
        ),
{
    let claims = stores.claims[bearer];
    let record = stores.web_logins[claims.sub];
    let login = VerifiedLogin { login_id: claims.sub, account: record.account };
    let (first, decode) = advanced(
        ClientType::WebDashboard,
        AuthStateView::Start,
        AuthEventView::Bearer(bearer),
        client_ip,
        now,
        config,
    );
    let (decoded, same) = stores.answer(first, decode);
    let (second, fetch) = advanced(
        ClientType::WebDashboard,
        first,
        decoded,
        client_ip,
        now,
        config,
    );
    let (found, again) = stores.answer(second, fetch);
    lemma_verified_login_is_served(
        ClientType::WebDashboard,
        login,
        stores,
        client_ip,
        now,
        config,
        (fuel - 3) as nat,
    );
    assert(carried(
        ClientType::WebDashboard,
        second,
        found,
        stores,
        client_ip,
        now,
        config,
        (fuel - 2) as nat,
    ) == login_served(login, stores, now));
    assert(carried(
        ClientType::WebDashboard,
        first,
        decoded,
        stores,
        client_ip,
        now,
        config,
        (fuel - 1) as nat,
    ) == login_served(login, stores, now));
}

/// An API token whose secret does not match the record ends as one whose
/// record does not exist: both are turned away as invalid after the one
/// read of the record, and nothing in the stores is changed. The address
/// must be an allowed one and the record current, for those checks come
/// before the secret.
pub proof fn lemma_wrong_secret_ends_as_unknown_token(
    bearer: Seq<char>,
    stores: Stores,
    without: Stores,
    client_ip: IpAddress,
    now: i128,
    config: AuthConfig,
    fuel: nat,
)
    requires
        fuel >= 1,
        api_token_credential(bearer) matches Ok(CredentialView::ApiToken { login_id, secret })
            && held(stores.api_tokens, login_id) matches Some(record) && {
            &&& api_token_current(record, now)
            &&& address_allowed(allow_list(record.allowed_ips), client_ip)
            &&& stored_secret_check(
                Some(record),
                secret,
                vstd::utf8::encode_utf8(config.password_pepper@),
            ) == Ok::<bool, ErrorType>(false)
            &&& without == Stores { api_tokens: stores.api_tokens.remove(login_id), ..stores }
        },
    ensures
        carried(
            ClientType::ApiToken,
            AuthStateView::Start,
            AuthEventView::Bearer(bearer),
            stores,
            client_ip,
            now,
            config,
            fuel,
        ) == (AuthStepView::Reject(ErrorType::AuthorizationTokenInvalid), stores),
        carried(
            ClientType::ApiToken,
            AuthStateView::Start,
            AuthEventView::Bearer(bearer),
            without,
            client_ip,
            now,
            config,
            fuel,
        ) == (AuthStepView::Reject(ErrorType::AuthorizationTokenInvalid), without),
{
    let (login_id, secret) = match api_token_credential(bearer) {
        Ok(CredentialView::ApiToken { login_id, secret }) => (login_id, secret),
        _ => (0, 0),
    };
    let record = stores.api_tokens[login_id];
    let start = AuthStateView::Start;
    let event = AuthEventView::Bearer(bearer);
    let (first, fetch) = advanced(ClientType::ApiToken, start, event, client_ip, now, config);
    assert(carried(
        ClientType::ApiToken,
        first,
        AuthEventView::ApiToken(Some(record)),
        stores,
        client_ip,
        now,
        config,
        (fuel - 1) as nat,
    ) == (AuthStepView::Reject(ErrorType::AuthorizationTokenInvalid), stores));
    assert(carried(
        ClientType::ApiToken,
        first,
        AuthEventView::ApiToken(None),
        without,
        client_ip,
        now,
        config,
        (fuel - 1) as nat,
    ) == (AuthStepView::Reject(ErrorType::AuthorizationTokenInvalid), without));
}

/// A login whose snapshot is cached, with no marker of its ledger younger
/// than the snapshot, is served the cached grants, and the stores are left
/// as they were: so is every later request of the login, until a marker
/// is written or the snapshot is replaced.
pub proof fn lemma_cached_grants_are_served(
    login: VerifiedLogin,
    grants: Map<u128, WorkspaceGrant>,
    created: i128,
    stores: Stores,
    now: i128,
)
    requires
        held(stores.snapshots, login.login_id) == Some((grants, created)),
        none_applicable(
            created,
            ledger_keys(login.account.id, login.login_id, listing(grants.dom())),
            stores.markers,
            0,
        ),
    ensures
        login_served(login, stores, now) == (AuthStepView::Accept { login, grants }, stores),
{
    let keys = ledger_keys(login.account.id, login.login_id, listing(grants.dom()));
    lemma_settle(grants, created, keys, 0, stores.markers);
}

/// A login without a usable snapshot is served the grants that its rows
/// resolve to, and they are left cached with the instant of the request.
/// Where no marker of their ledger is younger than that instant, the next
/// request of the login is served the same grants from the cache.
pub proof fn lemma_resolved_grants_are_served_again(
    login: VerifiedLogin,
    stores: Stores,
    now: i128,
    later: i128,
)
    requires
        !(settle(
            lookup_start(
                held(stores.snapshots, login.login_id),
                login.account.id,
                login.login_id,
            ),
            stores.markers,
        ).0 is Fresh),
        none_applicable(
            now,
            ledger_keys(
                login.account.id,
                login.login_id,
                listing(stores.resolved(login.login_id).dom()),
            ),
            login_served(login, stores, now).1.markers,
            0,
        ),
    ensures
        login_served(login, stores, now).0 == (AuthStepView::Accept {
            login,
            grants: stores.resolved(login.login_id),
        }),
        login_served(login, login_served(login, stores, now).1, later) == (
            login_served(login, stores, now).0,
            login_served(login, stores, now).1,
        ),
{
    let after = login_served(login, stores, now).1;
    let grants = stores.resolved(login.login_id);
    lemma_cached_grants_are_served(login, grants, now, after, later);
}

} // verus!
