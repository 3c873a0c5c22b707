//! The deletion of a workspace, as far as it bears on cached grants: once
//! the workspace is gone, a marker revokes every snapshot that holds it.

use crate::cache::RevocationKey;
use crate::config::AuthConfig;
use crate::config::REVOCATION_MARGIN_SECONDS;
use crate::error::ErrorType;
use vstd::prelude::*;

verus! {

/// The stored record of a workspace that has not been deleted.
#[derive(Debug, Clone, Copy, PartialEq, Eq, Structural)]
pub struct WorkspaceRecord {
    pub id: u128,
    pub super_admin_id: u128,
}

/// A revocation marker to write: its key, the seconds for which it is kept,
/// and the second with which it is stamped.
#[derive(Debug, Clone, Copy, PartialEq, Eq, Structural)]
pub struct RevocationMarker {
    pub key: RevocationKey,
    pub ttl_seconds: u64,
    pub timestamp: i64,
}

/// Whether `requester` may know of the workspace: it exists and is theirs.
/// Otherwise the answer is that there is no such workspace.
pub open spec fn workspace_ownership(workspace: Option<WorkspaceRecord>, requester: u128) -> Result<
    WorkspaceRecord,
    ErrorType,
> {
    match workspace {
        None => Err(ErrorType::ResourceDoesNotExist),
        Some(found) => if found.super_admin_id != requester {
            Err(ErrorType::ResourceDoesNotExist)
        } else {
            Ok(found)
        },
    }
}

/// What the deletion of a workspace gives: an error where the workspace is
/// not the requester's or still owns resources, else the marker that
/// revokes the snapshots holding it, stamped `now_seconds` and kept for
/// longer than any snapshot lives.
pub open spec fn workspace_deletion(
    workspace: Option<WorkspaceRecord>,
    requester: u128,
    resources: i64,
    now_seconds: i64,
    config: AuthConfig,
) -> Result<RevocationMarker, ErrorType> {
    match workspace_ownership(workspace, requester) {
        Err(error) => Err(error),
        Ok(found) => if resources > 0 {
            Err(ErrorType::WorkspaceNotEmpty)
        } else {
            Ok(
                RevocationMarker {
                    key: RevocationKey::Workspace(found.id),
                    ttl_seconds: (config.cached_permissions_validity
                        + REVOCATION_MARGIN_SECONDS) as u64,
                    timestamp: now_seconds,
                },
            )
        },
    }
}

/// Checks that the workspace exists and is the requester's, before its
/// resources are counted.
pub fn check_workspace_owner(workspace: Option<WorkspaceRecord>, requester: u128) -> (owned: Result<
    WorkspaceRecord,
    ErrorType,
>)
    ensures
        owned == workspace_ownership(workspace, requester),
{
    match workspace {
        None => Err(ErrorType::ResourceDoesNotExist),
        Some(found) => {
            if found.super_admin_id != requester {
                Err(ErrorType::ResourceDoesNotExist)
            } else {
                Ok(found)
            }
        },
    }
}

/// Decides the deletion of a workspace. `workspace` is its record, if it
/// has one that is not deleted; `resources` counts the resources that it
/// still owns. On `Ok` the caller marks the workspace deleted and writes
/// the marker.
pub fn delete_workspace(
    workspace: Option<WorkspaceRecord>,
    requester: u128,
    resources: i64,
    now_seconds: i64,
    config: &AuthConfig,
) -> (decision: Result<RevocationMarker, ErrorType>)
    requires
        config.wf(),
    ensures
        decision == workspace_deletion(workspace, requester, resources, now_seconds, *config),
{
    match check_workspace_owner(workspace, requester) {
        Err(error) => Err(error),
        Ok(found) => {
            if resources > 0 {
                Err(ErrorType::WorkspaceNotEmpty)
            } else {
                Ok(
                    RevocationMarker {
                        key: RevocationKey::Workspace(found.id),
                        ttl_seconds: config.marker_ttl(),
                        timestamp: now_seconds,
                    },
                )
            }
        },
    }
}

} // verus!
