use std::collections::BTreeMap;
use std::collections::BTreeSet;

use patr_auth::grants::GrantSet;
use patr_auth::grants::PermissionRow;
use patr_auth::grants::ResourcePermissionType;
use patr_auth::grants::WorkspacePermission;

fn row(workspace_id: u128, resource_id: u128, permission_id: u128) -> PermissionRow {
    PermissionRow { workspace_id, resource_id, permission_id }
}

fn set_of(ids: &[u128]) -> BTreeSet<u128> {
    ids.iter().copied().collect()
}

#[test]
fn include_wins_over_exclude() {
    let excludes = vec![row(1, 5, 2), row(1, 6, 2)];
    let includes = vec![row(1, 5, 2)];
    let grants = GrantSet::resolve(&vec![9], &excludes, &includes);
    assert!(grants.permits(1, 2, 5));
    assert!(!grants.permits(1, 2, 6));
    assert!(grants.permits(1, 2, 7));
    assert!(grants.permits(9, 2, 6));
    assert!(!grants.permits(3, 2, 7));
}

#[test]
fn resolve_of_nothing_is_empty() {
    let grants = GrantSet::resolve(&vec![], &vec![], &vec![]);
    assert_eq!(grants, GrantSet::new());
    assert!(grants.workspaces.is_empty());
    assert!(!grants.permits(1, 1, 1));
    assert_eq!(grants.workspace_ids(), Vec::<u128>::new());
}

#[test]
fn resolve_gives_the_exact_grant_set() {
    let super_admins = vec![10];
    let excludes = vec![row(20, 1, 100), row(20, 2, 100), row(20, 3, 101), row(10, 4, 100)];
    let includes = vec![row(20, 2, 100), row(20, 7, 102), row(30, 8, 100), row(10, 9, 100)];
    let grants = GrantSet::resolve(&super_admins, &excludes, &includes);

    let mut twenty = BTreeMap::new();
    twenty.insert(100, ResourcePermissionType::Exclude(set_of(&[1])));
    twenty.insert(101, ResourcePermissionType::Exclude(set_of(&[3])));
    twenty.insert(102, ResourcePermissionType::Include(set_of(&[7])));
    let mut thirty = BTreeMap::new();
    thirty.insert(100, ResourcePermissionType::Include(set_of(&[8])));
    let mut expected = BTreeMap::new();
    expected.insert(10, WorkspacePermission::SuperAdmin);
    expected.insert(20, WorkspacePermission::Member { permissions: twenty });
    expected.insert(30, WorkspacePermission::Member { permissions: thirty });
    assert_eq!(grants.workspaces, expected);
}

#[test]
fn resolve_ignores_the_order_of_rows() {
    let super_admins = vec![10, 11];
    let excludes = vec![row(20, 1, 100), row(20, 2, 100), row(21, 3, 101)];
    let includes = vec![row(20, 2, 100), row(20, 7, 102), row(21, 3, 101), row(30, 8, 100)];
    let first = GrantSet::resolve(&super_admins, &excludes, &includes);

    let mut super_admins_back = super_admins.clone();
    super_admins_back.reverse();
    let mut excludes_back = excludes.clone();
    excludes_back.reverse();
    let mut includes_back = includes.clone();
    includes_back.reverse();
    includes_back.push(row(20, 7, 102));
    let second = GrantSet::resolve(&super_admins_back, &excludes_back, &includes_back);
    assert_eq!(first, second);

    let rotated = vec![excludes[1], excludes[2], excludes[0]];
    let third = GrantSet::resolve(&super_admins, &rotated, &includes);
    assert_eq!(first, third);
}

#[test]
fn every_included_row_is_permitted() {
    let excludes = vec![row(1, 1, 1), row(1, 2, 1), row(2, 1, 1), row(3, 3, 3)];
    let includes = vec![row(1, 1, 1), row(2, 2, 1), row(3, 3, 3), row(4, 4, 4), row(5, 1, 1)];
    let grants = GrantSet::resolve(&vec![5], &excludes, &includes);
    for given in &includes {
        assert!(grants.permits(given.workspace_id, given.permission_id, given.resource_id));
    }
    assert!(!grants.permits(1, 1, 2));
    assert!(!grants.permits(2, 1, 1));
}

#[test]
fn super_admin_is_not_changed_by_rows() {
    let grants = GrantSet::resolve(&vec![7], &vec![row(7, 1, 1)], &vec![row(7, 2, 2)]);
    assert_eq!(grants.workspaces.get(&7), Some(&WorkspacePermission::SuperAdmin));
    assert!(grants.permits(7, 1, 1));
    assert!(grants.permits(7, 99, 99));
}

#[test]
fn exclusion_without_inclusion_lets_other_resources_through() {
    let grants = GrantSet::resolve(&vec![], &vec![row(1, 5, 2)], &vec![]);
    assert!(!grants.permits(1, 2, 5));
    assert!(grants.permits(1, 2, 6));
    assert!(!grants.permits(1, 3, 6));
}

#[test]
fn inclusion_alone_lets_only_its_resources_through() {
    let grants = GrantSet::resolve(&vec![], &vec![], &vec![row(1, 5, 2), row(1, 6, 2)]);
    assert!(grants.permits(1, 2, 5));
    assert!(grants.permits(1, 2, 6));
    assert!(!grants.permits(1, 2, 7));
}

#[test]
fn single_rows_apply_as_the_passes_do() {
    let mut grants = GrantSet::new();
    grants.apply_exclude(row(1, 5, 2));
    assert!(!grants.permits(1, 2, 5));
    grants.apply_include(row(1, 5, 2));
    assert!(grants.permits(1, 2, 5));
    let mut rules = BTreeMap::new();
    rules.insert(2, ResourcePermissionType::Exclude(BTreeSet::new()));
    assert_eq!(
        grants.workspaces.get(&1),
        Some(&WorkspacePermission::Member { permissions: rules })
    );
    grants.add_super_admin(1);
    assert_eq!(grants.workspaces.get(&1), Some(&WorkspacePermission::SuperAdmin));
    grants.apply_exclude(row(1, 5, 2));
    assert_eq!(grants.workspaces.get(&1), Some(&WorkspacePermission::SuperAdmin));
}

#[test]
fn exclude_leaves_an_inclusion_as_it_is() {
    let mut grants = GrantSet::new();
    grants.apply_include(row(1, 5, 2));
    grants.apply_exclude(row(1, 5, 2));
    assert!(grants.permits(1, 2, 5));
    grants.apply_exclude(row(1, 6, 2));
    assert!(!grants.permits(1, 2, 6));
    let mut rules = BTreeMap::new();
    rules.insert(2, ResourcePermissionType::Include(set_of(&[5])));
    assert_eq!(
        grants.workspaces.get(&1),
        Some(&WorkspacePermission::Member { permissions: rules })
    );
}

#[test]
fn workspace_ids_come_in_increasing_order() {
    let grants = GrantSet::resolve(
        &vec![u128::MAX, 3],
        &vec![row(40, 1, 1), row(2, 1, 1)],
        &vec![row(17, 1, 1)],
    );
    assert_eq!(grants.workspace_ids(), vec![2, 3, 17, 40, u128::MAX]);
}
