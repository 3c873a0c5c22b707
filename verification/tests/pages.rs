use patr_auth::config::AuthConfig;
use patr_auth::config::REVOCATION_MARGIN_SECONDS;
use patr_auth::error::ErrorType;
use patr_auth::frontend::AppRoute;
use patr_auth::frontend::DashboardBody;
use patr_auth::frontend::RunnerDashboard;
use patr_auth::frontend::WorkspaceRoutes;
use patr_auth::cache::RevocationKey;
use patr_auth::workspace::check_workspace_owner;
use patr_auth::workspace::delete_workspace;
use patr_auth::workspace::RevocationMarker;
use patr_auth::workspace::WorkspaceRecord;

fn config(validity: u64) -> AuthConfig {
    AuthConfig {
        jwt_issuer: "issuer".to_string(),
        jwt_audience: "audience".to_string(),
        session_validity: 1,
        cached_permissions_validity: validity,
        password_pepper: String::new(),
    }
}

#[test]
fn the_dashboard_shows_a_card_for_each_runner() {
    assert_eq!(RunnerDashboard(Some(Ok(vec![3, 1, 2]))), DashboardBody::Cards(vec![3, 1, 2]));
    assert_eq!(RunnerDashboard(Some(Ok(vec![]))), DashboardBody::Cards(vec![]));
}

#[test]
fn the_dashboard_shows_a_placeholder_while_it_waits() {
    assert_eq!(RunnerDashboard(None), DashboardBody::Skeleton);
}

#[test]
fn the_dashboard_shows_nothing_after_a_failure() {
    assert_eq!(RunnerDashboard(Some(Err(ErrorType::ServerError))), DashboardBody::Nothing);
    assert_eq!(
        RunnerDashboard(Some(Err(ErrorType::AuthorizationTokenInvalid))),
        DashboardBody::Nothing
    );
}

#[test]
fn the_workspace_routes_hold_the_create_page() {
    assert_eq!(
        WorkspaceRoutes(),
        vec![AppRoute { path: "/workspace/create".to_string(), requires_login: true }]
    );
}

#[test]
fn only_the_owner_may_know_of_a_workspace() {
    let workspace = WorkspaceRecord { id: 7, super_admin_id: 1 };
    assert_eq!(check_workspace_owner(Some(workspace), 1), Ok(workspace));
    assert_eq!(check_workspace_owner(Some(workspace), 2), Err(ErrorType::ResourceDoesNotExist));
    assert_eq!(check_workspace_owner(None, 1), Err(ErrorType::ResourceDoesNotExist));
}

#[test]
fn a_workspace_is_deleted_only_when_empty_and_owned() {
    let workspace = WorkspaceRecord { id: 7, super_admin_id: 1 };
    assert_eq!(
        delete_workspace(None, 1, 0, 50, &config(100)),
        Err(ErrorType::ResourceDoesNotExist)
    );
    assert_eq!(
        delete_workspace(Some(workspace), 2, 0, 50, &config(100)),
        Err(ErrorType::ResourceDoesNotExist)
    );
    assert_eq!(
        delete_workspace(Some(workspace), 2, 5, 50, &config(100)),
        Err(ErrorType::ResourceDoesNotExist)
    );
    assert_eq!(
        delete_workspace(Some(workspace), 1, 1, 50, &config(100)),
        Err(ErrorType::WorkspaceNotEmpty)
    );
    assert_eq!(
        delete_workspace(Some(workspace), 1, i64::MAX, 50, &config(100)),
        Err(ErrorType::WorkspaceNotEmpty)
    );
    assert_eq!(
        delete_workspace(Some(workspace), 1, 0, 50, &config(100)),
        Ok(RevocationMarker { key: RevocationKey::Workspace(7), ttl_seconds: 400, timestamp: 50 })
    );
    assert_eq!(
        delete_workspace(Some(workspace), 1, -3, -50, &config(0)),
        Ok(RevocationMarker { key: RevocationKey::Workspace(7), ttl_seconds: 300, timestamp: -50 })
    );
}

#[test]
fn a_marker_outlives_every_snapshot() {
    let settings = config(172_800);
    assert!(settings.is_wf());
    assert_eq!(settings.snapshot_ttl(), 172_800);
    assert_eq!(settings.marker_ttl(), 172_800 + REVOCATION_MARGIN_SECONDS);
    assert!(settings.marker_ttl() > settings.snapshot_ttl());
    assert!(config(u64::MAX - 300).is_wf());
    assert_eq!(config(u64::MAX - 300).marker_ttl(), u64::MAX);
    assert!(!config(u64::MAX - 299).is_wf());
    assert!(!config(u64::MAX).is_wf());
}
