use std::collections::HashMap;

use patr_auth::cache::marker_is_applicable;
use patr_auth::cache::CacheState;
use patr_auth::cache::RevocationKey;
use patr_auth::cache::UserPermissionCache;
use patr_auth::clock::MAX_UNIX_SECONDS;
use patr_auth::clock::MIN_UNIX_SECONDS;
use patr_auth::clock::NANOS_PER_SECOND;
use patr_auth::config::AuthConfig;
use patr_auth::error::ErrorType;
use patr_auth::grants::GrantSet;
use patr_auth::grants::PermissionRow;
use patr_auth::workspace::delete_workspace;
use patr_auth::workspace::WorkspaceRecord;

const USER: u128 = 1000;
const LOGIN: u128 = 2000;

fn row(workspace_id: u128, resource_id: u128, permission_id: u128) -> PermissionRow {
    PermissionRow { workspace_id, resource_id, permission_id }
}

fn grants_of(workspaces: &[u128]) -> GrantSet {
    let rows: Vec<PermissionRow> = workspaces.iter().map(|w| row(*w, 1, 1)).collect();
    GrantSet::resolve(&vec![], &vec![], &rows)
}

fn snapshot_at(workspaces: &[u128], seconds: i64) -> UserPermissionCache {
    UserPermissionCache::new(grants_of(workspaces), seconds as i128 * NANOS_PER_SECOND)
}

fn config() -> AuthConfig {
    AuthConfig {
        jwt_issuer: "issuer".to_string(),
        jwt_audience: "audience".to_string(),
        session_validity: 30 * 86_400 * NANOS_PER_SECOND,
        cached_permissions_validity: 172_800,
        password_pepper: "pepper".to_string(),
    }
}

/// Carries a lookup to its end against the markers in `store`, and says
/// which keys were read on the way.
fn settle(
    mut state: CacheState,
    store: &mut HashMap<RevocationKey, i64>,
) -> (CacheState, Vec<RevocationKey>) {
    let mut read = Vec::new();
    while let Some(key) = state.pending() {
        read.push(key);
        state = state.observe(store.get(&key).copied());
    }
    if let CacheState::Stale { consumed: Some(key) } = &state {
        store.remove(key);
    }
    (state, read)
}

#[test]
fn a_miss_is_stale_at_once() {
    let state = CacheState::start(None, USER, LOGIN);
    assert_eq!(state, CacheState::Stale { consumed: None });
    assert_eq!(state.pending(), None);
}

#[test]
fn a_snapshot_without_markers_is_fresh() {
    let mut store = HashMap::new();
    let snapshot = snapshot_at(&[7, 3], 100);
    let (end, read) = settle(CacheState::start(Some(snapshot.clone()), USER, LOGIN), &mut store);
    assert_eq!(end, CacheState::Fresh { permission: snapshot.permission });
    assert_eq!(
        read,
        vec![
            RevocationKey::User(USER),
            RevocationKey::Login(LOGIN),
            RevocationKey::Workspace(3),
            RevocationKey::Workspace(7),
            RevocationKey::Global,
        ]
    );
}

#[test]
fn a_snapshot_of_no_workspace_reads_three_keys() {
    let mut store = HashMap::new();
    let start = CacheState::start(Some(snapshot_at(&[], 100)), USER, LOGIN);
    let (end, read) = settle(start, &mut store);
    assert_eq!(end, CacheState::Fresh { permission: GrantSet::new() });
    assert_eq!(
        read,
        vec![RevocationKey::User(USER), RevocationKey::Login(LOGIN), RevocationKey::Global]
    );
}

#[test]
fn a_marker_applies_only_when_strictly_younger() {
    let created = 100 * NANOS_PER_SECOND;
    assert!(marker_is_applicable(created, Some(101)));
    assert!(!marker_is_applicable(created, Some(100)));
    assert!(!marker_is_applicable(created, Some(99)));
    assert!(!marker_is_applicable(created, None));
    assert!(marker_is_applicable(created - 1, Some(100)));
    assert!(!marker_is_applicable(created + 1, Some(100)));
}

#[test]
fn a_marker_is_compared_in_nanoseconds() {
    assert!(marker_is_applicable(5 * NANOS_PER_SECOND, Some(6)));
    assert!(marker_is_applicable(7, Some(6)));
    assert!(marker_is_applicable(7, Some(1)));
    assert!(!marker_is_applicable(6 * NANOS_PER_SECOND, Some(6)));
    assert!(!marker_is_applicable(6 * NANOS_PER_SECOND + 1, Some(6)));
    assert!(marker_is_applicable(-1, Some(0)));
    assert!(!marker_is_applicable(0, Some(0)));
}

#[test]
fn a_marker_outside_the_calendar_never_applies() {
    assert!(marker_is_applicable(i128::MIN, Some(MIN_UNIX_SECONDS)));
    assert!(!marker_is_applicable(i128::MIN, Some(MIN_UNIX_SECONDS - 1)));
    assert!(marker_is_applicable(0, Some(MAX_UNIX_SECONDS)));
    assert!(!marker_is_applicable(0, Some(MAX_UNIX_SECONDS + 1)));
    assert!(!marker_is_applicable(0, Some(i64::MAX)));
    assert!(!marker_is_applicable(i128::MIN, Some(i64::MIN)));
}

#[test]
fn a_snapshot_at_the_marker_s_second_is_kept() {
    let mut store = HashMap::new();
    store.insert(RevocationKey::Login(LOGIN), 100);
    let snapshot = snapshot_at(&[3], 100);
    let (end, _) = settle(CacheState::start(Some(snapshot.clone()), USER, LOGIN), &mut store);
    assert_eq!(end, CacheState::Fresh { permission: snapshot.permission });
    assert_eq!(store.get(&RevocationKey::Login(LOGIN)), Some(&100));
}

#[test]
fn a_user_marker_revokes_and_stays() {
    let mut store = HashMap::new();
    store.insert(RevocationKey::User(USER), 101);
    store.insert(RevocationKey::Login(LOGIN), 102);
    let start = CacheState::start(Some(snapshot_at(&[3], 100)), USER, LOGIN);
    let (end, read) = settle(start, &mut store);
    assert_eq!(end, CacheState::Stale { consumed: None });
    assert_eq!(read, vec![RevocationKey::User(USER)]);
    assert_eq!(store.len(), 2);
}

#[test]
fn a_global_marker_revokes_and_stays() {
    let mut store = HashMap::new();
    store.insert(RevocationKey::Global, 101);
    let start = CacheState::start(Some(snapshot_at(&[3], 100)), USER, LOGIN);
    let (end, read) = settle(start, &mut store);
    assert_eq!(end, CacheState::Stale { consumed: None });
    assert_eq!(read.len(), 4);
    assert_eq!(store.get(&RevocationKey::Global), Some(&101));
}

#[test]
fn a_login_marker_revokes_once() {
    let mut store = HashMap::new();
    store.insert(RevocationKey::Login(LOGIN), 101);
    let snapshot = snapshot_at(&[3], 100);
    let (first, read) = settle(CacheState::start(Some(snapshot.clone()), USER, LOGIN), &mut store);
    assert_eq!(first, CacheState::Stale { consumed: Some(RevocationKey::Login(LOGIN)) });
    assert_eq!(read, vec![RevocationKey::User(USER), RevocationKey::Login(LOGIN)]);
    assert!(store.is_empty());
    let (second, _) = settle(CacheState::start(Some(snapshot.clone()), USER, LOGIN), &mut store);
    assert_eq!(second, CacheState::Fresh { permission: snapshot.permission.clone() });
    store.insert(RevocationKey::Login(LOGIN), 102);
    let (third, _) = settle(CacheState::start(Some(snapshot), USER, LOGIN), &mut store);
    assert_eq!(third, CacheState::Stale { consumed: Some(RevocationKey::Login(LOGIN)) });
}

#[test]
fn a_workspace_marker_revokes_once() {
    let mut store = HashMap::new();
    store.insert(RevocationKey::Workspace(7), 101);
    store.insert(RevocationKey::Workspace(8), 500);
    let snapshot = snapshot_at(&[3, 7], 100);
    let (first, read) = settle(CacheState::start(Some(snapshot.clone()), USER, LOGIN), &mut store);
    assert_eq!(first, CacheState::Stale { consumed: Some(RevocationKey::Workspace(7)) });
    assert_eq!(read.last(), Some(&RevocationKey::Workspace(7)));
    assert_eq!(store.get(&RevocationKey::Workspace(7)), None);
    assert_eq!(store.get(&RevocationKey::Workspace(8)), Some(&500));
    let (second, _) = settle(CacheState::start(Some(snapshot.clone()), USER, LOGIN), &mut store);
    assert_eq!(second, CacheState::Fresh { permission: snapshot.permission });
}

#[test]
fn the_first_applicable_marker_decides() {
    let mut store = HashMap::new();
    store.insert(RevocationKey::Workspace(3), 101);
    store.insert(RevocationKey::Workspace(7), 101);
    store.insert(RevocationKey::Global, 101);
    let start = CacheState::start(Some(snapshot_at(&[7, 3], 100)), USER, LOGIN);
    let (end, _) = settle(start, &mut store);
    assert_eq!(end, CacheState::Stale { consumed: Some(RevocationKey::Workspace(3)) });
    assert_eq!(store.len(), 2);
}

#[test]
fn an_ended_lookup_stays_as_it_is() {
    let stale = CacheState::Stale { consumed: Some(RevocationKey::Login(LOGIN)) };
    assert_eq!(stale.clone().observe(Some(i64::MAX)), stale);
    let fresh = CacheState::Fresh { permission: grants_of(&[1]) };
    assert_eq!(fresh.clone().observe(Some(101)), fresh);
}

#[test]
fn a_resolved_snapshot_holds_the_resolved_grants() {
    let excludes = vec![row(1, 5, 2)];
    let includes = vec![row(1, 5, 2), row(2, 1, 1)];
    let snapshot = UserPermissionCache::resolve(&vec![9], &excludes, &includes, 42);
    assert_eq!(snapshot.creation_time, 42);
    assert_eq!(snapshot.permission, GrantSet::resolve(&vec![9], &excludes, &includes));
}

#[test]
fn deleting_a_workspace_revokes_older_snapshots_only() {
    let workspace = WorkspaceRecord { id: 7, super_admin_id: USER };
    assert_eq!(
        delete_workspace(Some(workspace), USER, 1, 200, &config()),
        Err(ErrorType::WorkspaceNotEmpty)
    );
    let marker = delete_workspace(Some(workspace), USER, 0, 200, &config()).unwrap();
    assert_eq!(marker.key, RevocationKey::Workspace(7));
    assert_eq!(marker.timestamp, 200);
    assert_eq!(marker.ttl_seconds, 172_800 + 300);

    let mut store = HashMap::new();
    store.insert(marker.key, marker.timestamp);
    let before = snapshot_at(&[7], 199);
    let (end, _) = settle(CacheState::start(Some(before), USER, LOGIN), &mut store);
    assert_eq!(end, CacheState::Stale { consumed: Some(RevocationKey::Workspace(7)) });

    store.insert(marker.key, marker.timestamp);
    let after = snapshot_at(&[7], 201);
    let (end, _) = settle(CacheState::start(Some(after.clone()), USER, LOGIN), &mut store);
    assert_eq!(end, CacheState::Fresh { permission: after.permission });
    assert_eq!(store.get(&marker.key), Some(&200));

    let elsewhere = snapshot_at(&[8], 199);
    let (end, _) = settle(CacheState::start(Some(elsewhere.clone()), USER, LOGIN), &mut store);
    assert_eq!(end, CacheState::Fresh { permission: elsewhere.permission });
}
