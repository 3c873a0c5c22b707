//! The checks on a credential once its record has been read: the time
//! bounds, the revocation and the allow-list of an API token, and the
//! claims of a session token.

use crate::clock::instant_of_parts;
use crate::clock::is_older_than;
use crate::clock::older_than;
use crate::config::AuthConfig;
use crate::error::ErrorType;
use crate::ids::octets_of_uuid;
use crate::ids::timestamp_of_uuid;
use crate::ids::uuid_octets;
use crate::ids::uuid_timestamp;
use crate::network::address_allowed;
use crate::network::any_network_contains;
use crate::network::IpAddress;
use crate::network::IpNetwork;
use crate::secret::hash_is_readable;
use crate::secret::secret_matches;
use crate::secret::secret_verdict;
use crate::secret::verify_secret;
use crate::secret::MAX_PEPPER_LEN;
use vstd::prelude::*;

verus! {

/// The account that owns a login.
#[derive(Debug, Clone, PartialEq, Eq)]
pub struct Account {
    pub id: u128,
    pub username: String,
    pub first_name: String,
    pub last_name: String,
    pub created: i128,
}

/// The stored record of an API token, with its owning account.
#[derive(Debug, Clone, PartialEq, Eq)]
pub struct ApiTokenRecord {
    pub token_id: u128,
    pub account: Account,
    pub token_hash: String,
    pub token_nbf: Option<i128>,
    pub token_exp: Option<i128>,
    pub revoked: Option<i128>,
    pub allowed_ips: Option<Vec<IpNetwork>>,
}

/// The stored record of a dashboard login, with its owning account.
#[derive(Debug, Clone, PartialEq, Eq)]
pub struct WebLoginRecord {
    pub account: Account,
    pub token_expiry: i128,
}

/// A login whose credential has been verified.
#[derive(Debug, Clone, PartialEq, Eq)]
pub struct VerifiedLogin {
    pub login_id: u128,
    pub account: Account,
}

/// One audience or several.
#[derive(Debug, Clone, PartialEq, Eq)]
pub enum OneOrMore {
    One(String),
    Multiple(Vec<String>),
}

/// The claims of a decoded session token.
#[derive(Debug, Clone, PartialEq, Eq)]
pub struct AccessTokenData {
    pub iss: String,
    pub sub: u128,
    pub aud: OneOrMore,
    pub exp: i128,
    pub nbf: i128,
    pub iat: i128,
    pub jti: u128,
}

/// The networks of an allow-list, if there is one.
pub open spec fn allow_list(allowed_ips: Option<Vec<IpNetwork>>) -> Option<Seq<IpNetwork>> {
    match allowed_ips {
        Some(networks) => Some(networks@),
        None => None,
    }
}

/// What the stored state of an API token says at `now` to a request from
/// `client_ip`. The bounds are checked in this order: not before, expiry,
/// revocation, allow-list. Only the last has an error of its own.
pub open spec fn api_token_state(record: ApiTokenRecord, client_ip: IpAddress, now: i128) -> Result<
    (),
    ErrorType,
> {
    if record.token_nbf matches Some(nbf) && now < nbf {
        Err(ErrorType::AuthorizationTokenInvalid)
    } else if record.token_exp matches Some(exp) && now > exp {
        Err(ErrorType::AuthorizationTokenInvalid)
    } else if record.revoked matches Some(revoked) && now > revoked {
        Err(ErrorType::AuthorizationTokenInvalid)
    } else if !address_allowed(allow_list(record.allowed_ips), client_ip) {
        Err(ErrorType::DisallowedIpAddressForApiToken)
    } else {
        Ok(())
    }
}

/// What the verification of the secret adds to a record whose state is in
/// order: a fault of the server stays one, a secret that does not match
/// is an invalid token, and one that matches verifies the login.
pub open spec fn api_token_grant(
    record: ApiTokenRecord,
    secret_check: Result<bool, ErrorType>,
) -> Result<VerifiedLogin, ErrorType> {
    match secret_check {
        Err(fault) => Err(fault),
        Ok(false) => Err(ErrorType::AuthorizationTokenInvalid),
        Ok(true) => Ok(VerifiedLogin { login_id: record.token_id, account: record.account }),
    }
}

/// What authentication of an API token gives. A token without a record is
/// invalid, as one with a wrong secret is. The secret is only looked at
/// once the state of the record is in order.
pub open spec fn api_token_verdict(
    record: Option<ApiTokenRecord>,
    client_ip: IpAddress,
    now: i128,
    secret_check: Result<bool, ErrorType>,
) -> Result<VerifiedLogin, ErrorType> {
    match record {
        None => Err(ErrorType::AuthorizationTokenInvalid),
        Some(record) => match api_token_state(record, client_ip, now) {
            Err(error) => Err(error),
            Ok(()) => api_token_grant(record, secret_check),
        },
    }
}

/// What the verification of `secret` against the hash of a record gives
/// under `pepper`. Without a record there is nothing to verify against.
pub open spec fn stored_secret_check(
    record: Option<ApiTokenRecord>,
    secret: u128,
    pepper: Seq<u8>,
) -> Result<bool, ErrorType> {
    match record {
        Some(found) => secret_verdict(
            hash_is_readable(found.token_hash@),
            pepper.len() <= MAX_PEPPER_LEN,
            secret_matches(pepper, uuid_octets(secret), found.token_hash@),
        ),
        None => Ok(false),
    }
}

/// Checks the stored state of an API token at `now` for a request from
/// `client_ip`.
pub fn check_api_token_state(record: &ApiTokenRecord, client_ip: IpAddress, now: i128) -> (state:
    Result<(), ErrorType>)
    ensures
        state == api_token_state(*record, client_ip, now),
{
    if let Some(nbf) = record.token_nbf {
        if now < nbf {
            return Err(ErrorType::AuthorizationTokenInvalid);
        }
    }
    if let Some(exp) = record.token_exp {
        if now > exp {
            return Err(ErrorType::AuthorizationTokenInvalid);
        }
    }
    if let Some(revoked) = record.revoked {
        if now > revoked {
            return Err(ErrorType::AuthorizationTokenInvalid);
        }
    }
    if let Some(networks) = &record.allowed_ips {
        if !any_network_contains(networks, client_ip) {
            return Err(ErrorType::DisallowedIpAddressForApiToken);
        }
    }
    Ok(())
}

/// Concludes the authentication of an API token, whose state is in order,
/// from what the verification of its secret gave.
pub fn grant_api_token(record: ApiTokenRecord, secret_check: Result<bool, ErrorType>) -> (login:
    Result<VerifiedLogin, ErrorType>)
    ensures
        login == api_token_grant(record, secret_check),
{
    match secret_check {
        Err(fault) => Err(fault),
        Ok(false) => Err(ErrorType::AuthorizationTokenInvalid),
        Ok(true) => Ok(VerifiedLogin { login_id: record.token_id, account: record.account }),
    }
}

/// Authenticates an API token: `record` is what the store holds under the
/// login id of the token, `secret` is what the token presents.
pub fn authenticate_api_token(
    record: Option<ApiTokenRecord>,
    secret: u128,
    client_ip: IpAddress,
    now: i128,
    pepper: &[u8],
) -> (login: Result<VerifiedLogin, ErrorType>)
    ensures
        login == api_token_verdict(
            record,
            client_ip,
            now,
            stored_secret_check(record, secret, pepper@),
        ),
{
    match record {
        None => Err(ErrorType::AuthorizationTokenInvalid),
        Some(found) => {
            match check_api_token_state(&found, client_ip, now) {
                Err(error) => Err(error),
                Ok(()) => {
                    let octets = octets_of_uuid(secret);
                    let secret_check = verify_secret(
                        pepper,
                        octets.as_slice(),
                        found.token_hash.as_str(),
                    );
                    grant_api_token(found, secret_check)
                },
            }
        },
    }
}

/// Whether one of `names` is `expected`.
pub open spec fn some_name_is(names: Seq<String>, expected: Seq<char>) -> bool {
    exists|i: int| 0 <= i < names.len() && (#[trigger] names[i])@ == expected
}

impl OneOrMore {
    /// Whether `expected` is the audience, or among the audiences.
    pub open spec fn names(self, expected: Seq<char>) -> bool {
        match self {
            OneOrMore::One(only) => only@ == expected,
            OneOrMore::Multiple(several) => some_name_is(several@, expected),
        }
    }

    /// Whether `expected` is the audience, or among the audiences.
    pub fn contains(&self, expected: &String) -> (found: bool)
        ensures
            found == self.names(expected@),
    {
        match self {
            OneOrMore::One(only) => *only == *expected,
            OneOrMore::Multiple(several) => {
                let mut i: usize = 0;
                while i < several.len()
                    invariant
                        i <= several.len(),
                        self == OneOrMore::Multiple(*several),
                        forall|j: int| 0 <= j < i ==> (#[trigger] several@[j])@ != expected@,
                    decreases several.len() - i,
                {
                    if several[i] == *expected {
                        return true;
                    }
                    i += 1;
                }
                false
            },
        }
    }
}

/// What the claims of a session token say at `now`, given the time that
/// the token's identifier carries. A wrong issuer and an identifier without
/// a time make the token malformed; a token issued longer ago than the
/// session validity, not yet valid, or expired is invalid.
pub open spec fn session_claims_verdict(
    claims: AccessTokenData,
    issued: Option<(u64, u32)>,
    now: i128,
    config: AuthConfig,
) -> Result<(), ErrorType> {
    if claims.iss@ != config.jwt_issuer@ {
        Err(ErrorType::MalformedAccessToken)
    } else {
        match issued {
            None => Err(ErrorType::MalformedAccessToken),
            Some((seconds, nanos)) => {
                if older_than(now, instant_of_parts(seconds, nanos), config.session_validity) {
                    Err(ErrorType::AuthorizationTokenInvalid)
                } else if now < claims.nbf {
                    Err(ErrorType::AuthorizationTokenInvalid)
                } else if now > claims.exp {
                    Err(ErrorType::AuthorizationTokenInvalid)
                } else {
                    Ok(())
                }
            },
        }
    }
}

/// What the decoding of a session token gives before any record is read:
/// a token that could not be decoded is malformed, and the claims of one
/// that could are checked.
pub open spec fn session_token_verdict(
    decoded: Option<AccessTokenData>,
    now: i128,
    config: AuthConfig,
) -> Result<(), ErrorType> {
    match decoded {
        None => Err(ErrorType::MalformedAccessToken),
        Some(claims) => session_claims_verdict(claims, uuid_timestamp(claims.jti), now, config),
    }
}

/// Checks the claims of a session token at `now`, given the time that the
/// token's identifier carries.
pub fn judge_session_claims(
    claims: &AccessTokenData,
    issued: Option<(u64, u32)>,
    now: i128,
    config: &AuthConfig,
) -> (verdict: Result<(), ErrorType>)
    ensures
        verdict == session_claims_verdict(*claims, issued, now, *config),
{
    if claims.iss != config.jwt_issuer {
        return Err(ErrorType::MalformedAccessToken);
    }
    match issued {
        None => Err(ErrorType::MalformedAccessToken),
        Some((seconds, nanos)) => {
            if is_older_than(now, seconds, nanos, config.session_validity) {
                Err(ErrorType::AuthorizationTokenInvalid)
            } else if now < claims.nbf {
                Err(ErrorType::AuthorizationTokenInvalid)
            } else if now > claims.exp {
                Err(ErrorType::AuthorizationTokenInvalid)
            } else {
                Ok(())
            }
        },
    }
}

/// Checks a session token before any record is read. `decoded` is what
/// decoding the token under the signing key gave: its claims, or `None`
/// where the signature or the structure was wrong.
pub fn check_session_token(
    decoded: Option<&AccessTokenData>,
    now: i128,
    config: &AuthConfig,
) -> (verdict: Result<(), ErrorType>)
    ensures
        verdict == session_token_verdict(
            match decoded {
                Some(claims) => Some(*claims),
                None => None,
            },
            now,
            *config,
        ),
{
    match decoded {
        None => Err(ErrorType::MalformedAccessToken),
        Some(claims) => judge_session_claims(claims, timestamp_of_uuid(claims.jti), now, config),
    }
}

/// What the record of a dashboard login adds to claims that are in order:
/// a login without a record, or whose record has expired, is invalid; a
/// token that does not list the expected audience is malformed.
pub open spec fn web_login_verdict(
    record: Option<WebLoginRecord>,
    claims: AccessTokenData,
    now: i128,
    config: AuthConfig,
) -> Result<VerifiedLogin, ErrorType> {
    match record {
        None => Err(ErrorType::AuthorizationTokenInvalid),
        Some(found) => {
            if now > found.token_expiry {
                Err(ErrorType::AuthorizationTokenInvalid)
            } else if !claims.aud.names(config.jwt_audience@) {
                Err(ErrorType::MalformedAccessToken)
            } else {
                Ok(VerifiedLogin { login_id: claims.sub, account: found.account })
            }
        },
    }
}

/// Concludes the authentication of a session token: `record` is what the
/// store holds under the login id that the claims name.
pub fn authenticate_web_login(
    record: Option<WebLoginRecord>,
    claims: &AccessTokenData,
    now: i128,
    config: &AuthConfig,
) -> (login: Result<VerifiedLogin, ErrorType>)
    ensures
        login == web_login_verdict(record, *claims, now, *config),
{
    match record {
        None => Err(ErrorType::AuthorizationTokenInvalid),
        Some(found) => {
            if now > found.token_expiry {
                Err(ErrorType::AuthorizationTokenInvalid)
            } else if !claims.aud.contains(&config.jwt_audience) {
                Err(ErrorType::MalformedAccessToken)
            } else {
                Ok(VerifiedLogin { login_id: claims.sub, account: found.account })
            }
        },
    }
}

/// Whether the time bounds and the revocation of a record are in order at
/// `now`: it is not before its start nor after its expiry or its
/// revocation, as far as the record has them.
pub open spec fn api_token_current(record: ApiTokenRecord, now: i128) -> bool {
    &&& record.token_nbf matches Some(nbf) ==> nbf <= now
    &&& record.token_exp matches Some(exp) ==> now <= exp
    &&& record.revoked matches Some(revoked) ==> now <= revoked
}

/// An API token that is current, presented from an allowed address with the
/// right secret, is accepted, and the login verified is the token's own.
pub proof fn lemma_valid_api_token_is_accepted(
    record: ApiTokenRecord,
    client_ip: IpAddress,
    now: i128,
)
    requires
        api_token_current(record, now),
        address_allowed(allow_list(record.allowed_ips), client_ip),
    ensures
        api_token_verdict(Some(record), client_ip, now, Ok(true)) == Ok::<VerifiedLogin, ErrorType>(
            VerifiedLogin { login_id: record.token_id, account: record.account },
        ),
{
}

/// A token is accepted only when it is current, comes from an allowed
/// address and its secret matches.
pub proof fn lemma_accepted_api_token_is_valid(
    record: Option<ApiTokenRecord>,
    client_ip: IpAddress,
    now: i128,
    secret_check: Result<bool, ErrorType>,
)
    requires
        api_token_verdict(record, client_ip, now, secret_check) is Ok,
    ensures
        record matches Some(found) && api_token_current(found, now) && address_allowed(
            allow_list(found.allowed_ips),
            client_ip,
        ),
        secret_check == Ok::<bool, ErrorType>(true),
{
}

/// A wrong secret gives `AuthorizationTokenInvalid`, which is also what a
/// token without a record gives: the two cannot be told apart. The address
/// must be an allowed one, for the allow-list is checked before the secret
/// and has an error of its own.
pub proof fn lemma_wrong_secret_is_invalid(
    record: ApiTokenRecord,
    client_ip: IpAddress,
    now: i128,
    any_check: Result<bool, ErrorType>,
)
    requires
        address_allowed(allow_list(record.allowed_ips), client_ip),
    ensures
        api_token_verdict(Some(record), client_ip, now, Ok(false)) == Err::<
            VerifiedLogin,
            ErrorType,
        >(ErrorType::AuthorizationTokenInvalid),
        api_token_verdict(None, client_ip, now, any_check) == api_token_verdict(
            Some(record),
            client_ip,
            now,
            Ok(false),
        ),
{
}

/// A session token that names another issuer is malformed, whatever else
/// it claims and whenever it is presented.
pub proof fn lemma_wrong_issuer_is_malformed(
    claims: AccessTokenData,
    issued: Option<(u64, u32)>,
    now: i128,
    config: AuthConfig,
)
    requires
        claims.iss@ != config.jwt_issuer@,
    ensures
        session_claims_verdict(claims, issued, now, config) == Err::<(), ErrorType>(
            ErrorType::MalformedAccessToken,
        ),
{
}

} // verus!
