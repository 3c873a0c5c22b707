use patr_auth::authenticator::RequestUserData;
use patr_auth::clock::NANOS_PER_SECOND;
use patr_auth::config::AuthConfig;
use patr_auth::error::ErrorType;
use patr_auth::grants::GrantSet;
use patr_auth::grants::PermissionRow;
use patr_auth::network::IpAddress;
use patr_auth::network::IpNetwork;
use patr_auth::secret::verify_secret;
use patr_auth::token_state::authenticate_api_token;
use patr_auth::token_state::authenticate_web_login;
use patr_auth::token_state::check_api_token_state;
use patr_auth::token_state::check_session_token;
use patr_auth::token_state::grant_api_token;
use patr_auth::token_state::judge_session_claims;
use patr_auth::token_state::AccessTokenData;
use patr_auth::token_state::Account;
use patr_auth::token_state::ApiTokenRecord;
use patr_auth::token_state::OneOrMore;
use patr_auth::token_state::VerifiedLogin;
use patr_auth::token_state::WebLoginRecord;

const PEPPER: &[u8] = b"a pepper kept by the server";
const SECRET: u128 = 0xa1a2a3a4_b1b2_c1c2_d1d2_d3d4d5d6d7d8;
const NOW: i128 = 1_700_000_000 * NANOS_PER_SECOND;
const HOME: IpAddress = IpAddress::V4(0x7f00_0001);

fn hash_of(secret: u128, pepper: &[u8]) -> String {
    let salt = argon2::password_hash::SaltString::from_b64("c29tZXNhbHRzb21lc2FsdA").unwrap();
    let context = argon2::Argon2::new_with_secret(
        pepper,
        argon2::Algorithm::Argon2id,
        argon2::Version::V0x13,
        argon2::Params::new(8, 1, 1, None).unwrap(),
    )
    .unwrap();
    let parsed =
        argon2::PasswordHasher::hash_password(&context, &secret.to_be_bytes(), &salt).unwrap();
    parsed.to_string()
}

fn account() -> Account {
    Account {
        id: 11,
        username: "ada".to_string(),
        first_name: "Ada".to_string(),
        last_name: "Lovelace".to_string(),
        created: 1_600_000_000 * NANOS_PER_SECOND,
    }
}

fn record() -> ApiTokenRecord {
    ApiTokenRecord {
        token_id: 22,
        account: account(),
        token_hash: hash_of(SECRET, PEPPER),
        token_nbf: None,
        token_exp: None,
        revoked: None,
        allowed_ips: None,
    }
}

fn config() -> AuthConfig {
    AuthConfig {
        jwt_issuer: "https://api.example.test".to_string(),
        jwt_audience: "https://dashboard.example.test".to_string(),
        session_validity: 30 * 86_400 * NANOS_PER_SECOND,
        cached_permissions_validity: 172_800,
        password_pepper: "a pepper kept by the server".to_string(),
    }
}

/// A version 7 id made at `millis` after the Unix epoch.
fn v7(millis: u64) -> u128 {
    ((millis as u128) << 80) | (0x7 << 76) | (0x8 << 60) | 0x1234
}

fn claims() -> AccessTokenData {
    AccessTokenData {
        iss: "https://api.example.test".to_string(),
        sub: 33,
        aud: OneOrMore::One("https://dashboard.example.test".to_string()),
        exp: NOW + 3_600 * NANOS_PER_SECOND,
        nbf: NOW - 60 * NANOS_PER_SECOND,
        iat: NOW - 60 * NANOS_PER_SECOND,
        jti: v7(1_700_000_000_000 - 60_000),
    }
}

fn login() -> VerifiedLogin {
    VerifiedLogin { login_id: 22, account: account() }
}

#[test]
fn a_valid_api_token_is_accepted() {
    assert_eq!(authenticate_api_token(Some(record()), SECRET, HOME, NOW, PEPPER), Ok(login()));
    let mut bounded = record();
    bounded.token_nbf = Some(NOW);
    bounded.token_exp = Some(NOW);
    bounded.revoked = Some(NOW);
    bounded.allowed_ips = Some(vec![IpNetwork { address: IpAddress::V4(0x7f00_0000), prefix: 8 }]);
    assert_eq!(authenticate_api_token(Some(bounded), SECRET, HOME, NOW, PEPPER), Ok(login()));
}

#[test]
fn an_unknown_api_token_is_invalid() {
    assert_eq!(
        authenticate_api_token(None, SECRET, HOME, NOW, PEPPER),
        Err(ErrorType::AuthorizationTokenInvalid)
    );
}

#[test]
fn a_wrong_secret_looks_like_an_unknown_token() {
    let wrong = authenticate_api_token(Some(record()), SECRET + 1, HOME, NOW, PEPPER);
    let unknown = authenticate_api_token(None, SECRET + 1, HOME, NOW, PEPPER);
    assert_eq!(wrong, Err(ErrorType::AuthorizationTokenInvalid));
    assert_eq!(wrong, unknown);
}

#[test]
fn a_wrong_pepper_is_a_wrong_secret() {
    assert_eq!(
        authenticate_api_token(Some(record()), SECRET, HOME, NOW, b"another pepper"),
        Err(ErrorType::AuthorizationTokenInvalid)
    );
    assert_eq!(
        authenticate_api_token(Some(record()), SECRET, HOME, NOW, b""),
        Err(ErrorType::AuthorizationTokenInvalid)
    );
}

#[test]
fn an_unreadable_hash_is_a_server_fault() {
    let mut broken = record();
    broken.token_hash = "not a hash".to_string();
    assert_eq!(
        authenticate_api_token(Some(broken.clone()), SECRET, HOME, NOW, PEPPER),
        Err(ErrorType::ServerError)
    );
    broken.token_hash = String::new();
    assert_eq!(
        authenticate_api_token(Some(broken), SECRET, HOME, NOW, PEPPER),
        Err(ErrorType::ServerError)
    );
}

#[test]
fn the_state_of_a_token_is_checked_before_its_secret() {
    let mut early = record();
    early.token_hash = "not a hash".to_string();
    early.token_nbf = Some(NOW + 1);
    assert_eq!(
        authenticate_api_token(Some(early), SECRET, HOME, NOW, PEPPER),
        Err(ErrorType::AuthorizationTokenInvalid)
    );
    let mut elsewhere = record();
    elsewhere.token_hash = "not a hash".to_string();
    elsewhere.allowed_ips = Some(vec![]);
    assert_eq!(
        authenticate_api_token(Some(elsewhere), SECRET + 1, HOME, NOW, PEPPER),
        Err(ErrorType::DisallowedIpAddressForApiToken)
    );
}

#[test]
fn verify_secret_tells_match_from_mismatch() {
    let hash = hash_of(SECRET, PEPPER);
    assert_eq!(verify_secret(PEPPER, &SECRET.to_be_bytes(), &hash), Ok(true));
    assert_eq!(verify_secret(PEPPER, &SECRET.to_le_bytes(), &hash), Ok(false));
    assert_eq!(verify_secret(PEPPER, &(SECRET + 1).to_be_bytes(), &hash), Ok(false));
    assert_eq!(verify_secret(b"other", &SECRET.to_be_bytes(), &hash), Ok(false));
    assert_eq!(verify_secret(PEPPER, b"", &hash), Ok(false));
    assert_eq!(
        verify_secret(PEPPER, &SECRET.to_be_bytes(), "nonsense"),
        Err(ErrorType::ServerError)
    );
    assert_eq!(verify_secret(PEPPER, &SECRET.to_be_bytes(), ""), Err(ErrorType::ServerError));
    assert_eq!(verify_secret(PEPPER, hash.as_bytes(), &hash), Ok(false));
}

#[test]
fn verify_secret_takes_a_hash_made_with_other_costs() {
    let salt = argon2::password_hash::SaltString::from_b64("YW5vdGhlcnNhbHRoZXJl").unwrap();
    let context = argon2::Argon2::new_with_secret(
        PEPPER,
        argon2::Algorithm::Argon2id,
        argon2::Version::V0x13,
        argon2::Params::new(16, 2, 1, None).unwrap(),
    )
    .unwrap();
    let hash = argon2::PasswordHasher::hash_password(&context, b"secret", &salt)
        .unwrap()
        .to_string();
    assert_eq!(verify_secret(PEPPER, b"secret", &hash), Ok(true));
    assert_eq!(verify_secret(PEPPER, b"Secret", &hash), Ok(false));
}

#[test]
fn api_token_time_bounds_are_inclusive() {
    let mut bounded = record();
    bounded.token_nbf = Some(NOW);
    assert_eq!(check_api_token_state(&bounded, HOME, NOW), Ok(()));
    assert_eq!(
        check_api_token_state(&bounded, HOME, NOW - 1),
        Err(ErrorType::AuthorizationTokenInvalid)
    );
    let mut bounded = record();
    bounded.token_exp = Some(NOW);
    assert_eq!(check_api_token_state(&bounded, HOME, NOW), Ok(()));
    assert_eq!(
        check_api_token_state(&bounded, HOME, NOW + 1),
        Err(ErrorType::AuthorizationTokenInvalid)
    );
    let mut bounded = record();
    bounded.revoked = Some(NOW);
    assert_eq!(check_api_token_state(&bounded, HOME, NOW), Ok(()));
    assert_eq!(
        check_api_token_state(&bounded, HOME, NOW + 1),
        Err(ErrorType::AuthorizationTokenInvalid)
    );
}

#[test]
fn an_address_outside_the_allow_list_has_its_own_error() {
    let mut listed = record();
    listed.allowed_ips = Some(vec![
        IpNetwork { address: IpAddress::V4(0x0a00_0000), prefix: 8 },
        IpNetwork { address: IpAddress::V6(1), prefix: 128 },
    ]);
    assert_eq!(
        check_api_token_state(&listed, HOME, NOW),
        Err(ErrorType::DisallowedIpAddressForApiToken)
    );
    assert_eq!(check_api_token_state(&listed, IpAddress::V4(0x0a01_0203), NOW), Ok(()));
    assert_eq!(check_api_token_state(&listed, IpAddress::V6(1), NOW), Ok(()));
    assert_eq!(
        check_api_token_state(&listed, IpAddress::V6(2), NOW),
        Err(ErrorType::DisallowedIpAddressForApiToken)
    );
    listed.allowed_ips = Some(vec![]);
    assert_eq!(
        check_api_token_state(&listed, HOME, NOW),
        Err(ErrorType::DisallowedIpAddressForApiToken)
    );
    listed.token_exp = Some(NOW - 1);
    assert_eq!(
        check_api_token_state(&listed, HOME, NOW),
        Err(ErrorType::AuthorizationTokenInvalid)
    );
}

#[test]
fn the_secret_check_concludes_an_api_token() {
    assert_eq!(grant_api_token(record(), Ok(true)), Ok(login()));
    assert_eq!(grant_api_token(record(), Ok(false)), Err(ErrorType::AuthorizationTokenInvalid));
    assert_eq!(
        grant_api_token(record(), Err(ErrorType::ServerError)),
        Err(ErrorType::ServerError)
    );
}

#[test]
fn a_session_token_of_another_issuer_is_malformed() {
    let mut other = claims();
    other.iss = "https://api.example.test/".to_string();
    assert_eq!(
        check_session_token(Some(&other), NOW, &config()),
        Err(ErrorType::MalformedAccessToken)
    );
    other.exp = NOW - 1;
    other.jti = 0;
    assert_eq!(
        check_session_token(Some(&other), NOW, &config()),
        Err(ErrorType::MalformedAccessToken)
    );
    assert_eq!(
        judge_session_claims(&other, None, NOW, &config()),
        Err(ErrorType::MalformedAccessToken)
    );
}

#[test]
fn a_session_token_that_cannot_be_decoded_is_malformed() {
    assert_eq!(check_session_token(None, NOW, &config()), Err(ErrorType::MalformedAccessToken));
}

#[test]
fn a_session_token_in_order_passes() {
    assert_eq!(check_session_token(Some(&claims()), NOW, &config()), Ok(()));
    let mut edge = claims();
    edge.nbf = NOW;
    edge.exp = NOW;
    assert_eq!(check_session_token(Some(&edge), NOW, &config()), Ok(()));
}

#[test]
fn a_session_token_without_a_dated_identifier_is_malformed() {
    let mut undated = claims();
    undated.jti = 0x550e8400_e29b_41d4_a716_446655440000;
    assert_eq!(
        check_session_token(Some(&undated), NOW, &config()),
        Err(ErrorType::MalformedAccessToken)
    );
    undated.jti = 0;
    assert_eq!(
        check_session_token(Some(&undated), NOW, &config()),
        Err(ErrorType::MalformedAccessToken)
    );
}

#[test]
fn a_session_token_issued_too_long_ago_is_invalid() {
    let window_millis: u64 = 30 * 86_400 * 1_000;
    let mut old = claims();
    old.jti = v7(1_700_000_000_000 - window_millis);
    assert_eq!(check_session_token(Some(&old), NOW, &config()), Ok(()));
    old.jti = v7(1_700_000_000_000 - window_millis - 1);
    assert_eq!(
        check_session_token(Some(&old), NOW, &config()),
        Err(ErrorType::AuthorizationTokenInvalid)
    );
    old.jti = v7(1_700_000_000_000 + 5_000);
    assert_eq!(check_session_token(Some(&old), NOW, &config()), Ok(()));
}

#[test]
fn the_age_of_a_session_is_counted_exactly() {
    let window = config().session_validity;
    let issued = Some((1_000u64, 500u32));
    let at = 1_000 * NANOS_PER_SECOND + 500;
    let mut open = claims();
    open.nbf = i128::MIN;
    open.exp = i128::MAX;
    assert_eq!(judge_session_claims(&open, issued, at + window, &config()), Ok(()));
    assert_eq!(
        judge_session_claims(&open, issued, at + window + 1, &config()),
        Err(ErrorType::AuthorizationTokenInvalid)
    );
    assert_eq!(judge_session_claims(&open, issued, i128::MIN, &config()), Ok(()));
    assert_eq!(
        judge_session_claims(&open, Some((u64::MAX, u32::MAX)), i128::MAX, &config()),
        Err(ErrorType::AuthorizationTokenInvalid)
    );
    assert_eq!(judge_session_claims(&open, Some((u64::MAX, u32::MAX)), 0, &config()), Ok(()));
}

#[test]
fn a_session_token_outside_its_time_bounds_is_invalid() {
    let mut early = claims();
    early.nbf = NOW + 1;
    assert_eq!(
        check_session_token(Some(&early), NOW, &config()),
        Err(ErrorType::AuthorizationTokenInvalid)
    );
    let mut late = claims();
    late.exp = NOW - 1;
    assert_eq!(
        check_session_token(Some(&late), NOW, &config()),
        Err(ErrorType::AuthorizationTokenInvalid)
    );
}

#[test]
fn a_web_login_needs_a_live_record_and_the_audience() {
    let found = WebLoginRecord { account: account(), token_expiry: NOW };
    assert_eq!(
        authenticate_web_login(Some(found.clone()), &claims(), NOW, &config()),
        Ok(VerifiedLogin { login_id: 33, account: account() })
    );
    assert_eq!(
        authenticate_web_login(None, &claims(), NOW, &config()),
        Err(ErrorType::AuthorizationTokenInvalid)
    );
    assert_eq!(
        authenticate_web_login(Some(found.clone()), &claims(), NOW + 1, &config()),
        Err(ErrorType::AuthorizationTokenInvalid)
    );
    let mut other = claims();
    other.aud = OneOrMore::One("https://elsewhere.example.test".to_string());
    assert_eq!(
        authenticate_web_login(Some(found.clone()), &other, NOW, &config()),
        Err(ErrorType::MalformedAccessToken)
    );
    assert_eq!(
        authenticate_web_login(Some(found.clone()), &other, NOW + 1, &config()),
        Err(ErrorType::AuthorizationTokenInvalid)
    );
    other.aud = OneOrMore::Multiple(vec![]);
    assert_eq!(
        authenticate_web_login(Some(found.clone()), &other, NOW, &config()),
        Err(ErrorType::MalformedAccessToken)
    );
    other.aud = OneOrMore::Multiple(vec![
        "https://elsewhere.example.test".to_string(),
        "https://dashboard.example.test".to_string(),
    ]);
    assert_eq!(
        authenticate_web_login(Some(found), &other, NOW, &config()),
        Ok(VerifiedLogin { login_id: 33, account: account() })
    );
}

#[test]
fn audiences_are_compared_whole() {
    let one = OneOrMore::One("abc".to_string());
    assert!(one.contains(&"abc".to_string()));
    assert!(!one.contains(&"ab".to_string()));
    assert!(!one.contains(&"abcd".to_string()));
    let several = OneOrMore::Multiple(vec!["a".to_string(), "b".to_string(), "c".to_string()]);
    assert!(several.contains(&"c".to_string()));
    assert!(several.contains(&"a".to_string()));
    assert!(!several.contains(&"d".to_string()));
    assert!(!several.contains(&String::new()));
}

#[test]
fn an_identity_is_the_login_with_its_grants() {
    let grants = GrantSet::resolve(
        &vec![5],
        &vec![],
        &vec![PermissionRow { workspace_id: 1, resource_id: 2, permission_id: 3 }],
    );
    let identity = RequestUserData::new(login(), grants.clone());
    assert_eq!(
        identity,
        RequestUserData {
            id: 11,
            username: "ada".to_string(),
            first_name: "Ada".to_string(),
            last_name: "Lovelace".to_string(),
            created: 1_600_000_000 * NANOS_PER_SECOND,
            login_id: 22,
            permissions: grants,
        }
    );
}
