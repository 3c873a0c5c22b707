//! The permission cache and the revocation ledger.
//!
//! A snapshot of resolved grants is cached per login. Before a cached
//! snapshot is used, the markers that may revoke it are read in a fixed
//! order: the user's, the login's, one per workspace of the snapshot, and
//! the global one. The first marker younger than the snapshot makes it
//! stale. The reads are the caller's; [`CacheState`] says which key to read
//! next and what follows from each reading.

use crate::clock::instant_of_unix_seconds;
use crate::clock::unix_seconds_to_instant;
use crate::grants::lemma_listing_exists;
use crate::grants::listing;
use crate::grants::resolved_grants;
use crate::grants::GrantSet;
use crate::grants::PermissionRow;
use crate::grants::WorkspaceGrant;
use vstd::prelude::*;

verus! {

/// The key of a revocation marker.
#[derive(Debug, Clone, Copy, PartialEq, Eq, Hash, Structural)]
pub enum RevocationKey {
    /// Revokes the snapshots of every login of a user.
    User(u128),
    /// Revokes the snapshot of one login.
    Login(u128),
    /// Revokes the snapshots that hold a workspace.
    Workspace(u128),
    /// Revokes every snapshot.
    Global,
}

impl RevocationKey {
    /// Whether the marker is deleted once it has made a snapshot stale.
    /// A user's marker and the global one stay: they may have to revoke the
    /// snapshots of other logins too.
    pub open spec fn single_use(self) -> bool {
        self is Login || self is Workspace
    }

    /// Whether the marker is deleted once it has made a snapshot stale.
    pub fn is_single_use(&self) -> (single: bool)
        ensures
            single == self.single_use(),
    {
        match self {
            RevocationKey::Login(_) => true,
            RevocationKey::Workspace(_) => true,
            RevocationKey::User(_) => false,
            RevocationKey::Global => false,
        }
    }
}

/// A cached copy of resolved grants with the instant at which it was made.
#[derive(Debug, Clone, PartialEq, Eq)]
pub struct UserPermissionCache {
    pub permission: GrantSet,
    pub creation_time: i128,
}

/// Whether a marker read as `reading` revokes a snapshot made at `created`:
/// the marker exists, its seconds are a valid date-time, and it is strictly
/// younger than the snapshot.
pub open spec fn marker_applies(created: i128, reading: Option<i64>) -> bool {
    match reading {
        Some(seconds) => match instant_of_unix_seconds(seconds) {
            Some(marked) => created < marked,
            None => false,
        },
        None => false,
    }
}

/// Whether a marker read as `reading` revokes a snapshot made at `created`.
pub fn marker_is_applicable(created: i128, reading: Option<i64>) -> (applies: bool)
    ensures
        applies == marker_applies(created, reading),
{
    match reading {
        Some(seconds) => match unix_seconds_to_instant(seconds) {
            Some(marked) => created < marked,
            None => false,
        },
        None => false,
    }
}

/// The keys to read for a snapshot, in the order in which they are read.
pub open spec fn ledger_keys(user_id: u128, login_id: u128, workspaces: Seq<u128>) -> Seq<
    RevocationKey,
> {
    seq![RevocationKey::User(user_id), RevocationKey::Login(login_id)] + workspaces.map_values(
        |w: u128| RevocationKey::Workspace(w),
    ) + seq![RevocationKey::Global]
}

/// Where a cache lookup stands.
#[derive(Debug, Clone, PartialEq, Eq)]
pub enum CacheState {
    /// A snapshot was found; the marker under `keys[position]` is to be read.
    Checking { snapshot: UserPermissionCache, keys: Vec<RevocationKey>, position: usize },
    /// The cached grants are current and are the result.
    Fresh { permission: GrantSet },
    /// Nothing usable is cached: the grants are to be resolved and stored
    /// anew. `consumed` is the marker to delete first, if there is one.
    Stale { consumed: Option<RevocationKey> },
}

/// The mathematical value of a [`CacheState`].
pub enum CacheStateView {
    Checking {
        grants: Map<u128, WorkspaceGrant>,
        created: i128,
        keys: Seq<RevocationKey>,
        position: int,
    },
    Fresh { grants: Map<u128, WorkspaceGrant> },
    Stale { consumed: Option<RevocationKey> },
}

impl View for CacheState {
    type V = CacheStateView;

    open spec fn view(&self) -> CacheStateView {
        match self {
            CacheState::Checking { snapshot, keys, position } => CacheStateView::Checking {
                grants: snapshot.permission@,
                created: snapshot.creation_time,
                keys: keys@,
                position: *position as int,
            },
            CacheState::Fresh { permission } => CacheStateView::Fresh { grants: permission@ },
            CacheState::Stale { consumed } => CacheStateView::Stale { consumed: *consumed },
        }
    }
}

impl CacheStateView {
    /// A lookup that is checking always has a key to read.
    pub open spec fn wf(self) -> bool {
        self matches CacheStateView::Checking { keys, position, .. } ==> 0 <= position < keys.len()
    }

    /// The key whose marker is to be read next, while the lookup is checking.
    pub open spec fn pending(self) -> Option<RevocationKey> {
        match self {
            CacheStateView::Checking { keys, position, .. } => Some(keys[position]),
            _ => None,
        }
    }

    /// The state after the pending key was read as `reading`. An applicable
    /// marker ends the lookup as stale, and is consumed if it is single-use.
    /// Otherwise the next key is read, and after the last one the snapshot
    /// is fresh. A lookup that has ended stays as it is.
    pub open spec fn observed(self, reading: Option<i64>) -> CacheStateView {
        match self {
            CacheStateView::Checking { grants, created, keys, position } => {
                if marker_applies(created, reading) {
                    CacheStateView::Stale {
                        consumed: if keys[position].single_use() {
                            Some(keys[position])
                        } else {
                            None
                        },
                    }
                } else if position + 1 < keys.len() {
                    CacheStateView::Checking { grants, created, keys, position: position + 1 }
                } else {
                    CacheStateView::Fresh { grants }
                }
            },
            _ => self,
        }
    }
}

/// The state in which a lookup starts: stale on a miss, else checking the
/// first key of the ledger for the snapshot found.
pub open spec fn lookup_start(
    snapshot: Option<(Map<u128, WorkspaceGrant>, i128)>,
    user_id: u128,
    login_id: u128,
) -> CacheStateView {
    match snapshot {
        None => CacheStateView::Stale { consumed: None },
        Some((grants, created)) => CacheStateView::Checking {
            grants,
            created,
            keys: ledger_keys(user_id, login_id, listing(grants.dom())),
            position: 0,
        },
    }
}

impl UserPermissionCache {
    /// A snapshot of `permission` made at `now`.
    pub fn new(permission: GrantSet, now: i128) -> (snapshot: UserPermissionCache)
        ensures
            snapshot.permission == permission,
            snapshot.creation_time == now,
    {
        UserPermissionCache { permission, creation_time: now }
    }

    /// Resolves the grants of a login from the rows read for it and makes
    /// the snapshot to store, stamped `now`.
    pub fn resolve(
        super_admins: &Vec<u128>,
        excludes: &Vec<PermissionRow>,
        includes: &Vec<PermissionRow>,
        now: i128,
    ) -> (snapshot: UserPermissionCache)
        ensures
            snapshot.permission@ == resolved_grants(super_admins@, excludes@, includes@),
            snapshot.creation_time == now,
    {
        UserPermissionCache {
            permission: GrantSet::resolve(super_admins, excludes, includes),
            creation_time: now,
        }
    }
}

impl View for UserPermissionCache {
    type V = (Map<u128, WorkspaceGrant>, i128);

    /// What a lookup sees of the snapshot: its grants and its age.
    open spec fn view(&self) -> (Map<u128, WorkspaceGrant>, i128) {
        (self.permission@, self.creation_time)
    }
}

/// The snapshot as a lookup sees it, or nothing on a miss.
pub open spec fn snapshot_view(snapshot: Option<UserPermissionCache>) -> Option<
    (Map<u128, WorkspaceGrant>, i128),
> {
    match snapshot {
        Some(found) => Some(found@),
        None => None,
    }
}

/// The keys to read for a snapshot, in the order in which they are read.
fn collect_ledger_keys(user_id: u128, login_id: u128, workspaces: &Vec<u128>) -> (keys: Vec<
    RevocationKey,
>)
    ensures
        keys@ == ledger_keys(user_id, login_id, workspaces@),
{
    let mut keys: Vec<RevocationKey> = Vec::new();
    keys.push(RevocationKey::User(user_id));
    keys.push(RevocationKey::Login(login_id));
    let mut i: usize = 0;
    while i < workspaces.len()
        invariant
            i <= workspaces.len(),
            keys@ == seq![RevocationKey::User(user_id), RevocationKey::Login(login_id)]
                + workspaces@.take(i as int).map_values(|w: u128| RevocationKey::Workspace(w)),
        decreases workspaces.len() - i,
    {
        keys.push(RevocationKey::Workspace(workspaces[i]));
        i += 1;
    }
    keys.push(RevocationKey::Global);
    keys
}

impl CacheState {
    /// Starts a lookup with what was read under the login's snapshot key:
    /// `None` on a miss, or when what was stored could not be decoded.
    pub fn start(snapshot: Option<UserPermissionCache>, user_id: u128, login_id: u128) -> (state:
        CacheState)
        ensures
            state@ == lookup_start(snapshot_view(snapshot), user_id, login_id),
            state@.wf(),
    {
        match snapshot {
            None => CacheState::Stale { consumed: None },
            Some(found) => {
                let workspaces = found.permission.workspace_ids();
                let keys = collect_ledger_keys(user_id, login_id, &workspaces);
                CacheState::Checking { snapshot: found, keys, position: 0 }
            },
        }
    }

    /// Whether a lookup that is checking has a key to read.
    pub fn is_wf(&self) -> (ok: bool)
        ensures
            ok == self@.wf(),
    {
        match self {
            CacheState::Checking { snapshot: _, keys, position } => *position < keys.len(),
            _ => true,
        }
    }

    /// The key whose marker is to be read next, while the lookup is checking.
    pub fn pending(&self) -> (key: Option<RevocationKey>)
        requires
            self@.wf(),
        ensures
            key == self@.pending(),
    {
        match self {
            CacheState::Checking { snapshot: _, keys, position } => Some(keys[*position]),
            _ => None,
        }
    }

    /// Takes the reading of the pending key and moves the lookup on.
    pub fn observe(self, reading: Option<i64>) -> (next: CacheState)
        requires
            self@.wf(),
        ensures
            next@ == self@.observed(reading),
            next@.wf(),
    {
        match self {
            CacheState::Checking { snapshot, keys, position } => {
                if marker_is_applicable(snapshot.creation_time, reading) {
                    let key = keys[position];
                    CacheState::Stale {
                        consumed: if key.is_single_use() {
                            Some(key)
                        } else {
                            None
                        },
                    }
                } else if position < keys.len() - 1 {
                    CacheState::Checking { snapshot, keys, position: position + 1 }
                } else {
                    CacheState::Fresh { permission: snapshot.permission }
                }
            },
            CacheState::Fresh { permission } => CacheState::Fresh { permission },
            CacheState::Stale { consumed } => CacheState::Stale { consumed },
        }
    }
}

/// What reading `key` gives when the markers stored are `store`.
pub open spec fn reading_of(store: Map<RevocationKey, i64>, key: RevocationKey) -> Option<i64> {
    if store.contains_key(key) {
        Some(store[key])
    } else {
        None
    }
}

/// The lookup carried to its end against the markers in `store`: each
/// pending key is read and observed, and a consumed marker is deleted. The
/// result is the final state and the markers left.
pub open spec fn settle(state: CacheStateView, store: Map<RevocationKey, i64>) -> (
    CacheStateView,
    Map<RevocationKey, i64>,
)
    decreases
        (match state {
            CacheStateView::Checking { keys, position, .. } => keys.len() - position,
            _ => 0,
        }),
{
    match state {
        CacheStateView::Checking { keys, position, .. } => {
            if 0 <= position < keys.len() {
                let next = state.observed(reading_of(store, keys[position]));
                match next {
                    CacheStateView::Checking { .. } => settle(next, store),
                    CacheStateView::Stale { consumed: Some(key) } => (next, store.remove(key)),
                    _ => (next, store),
                }
            } else {
                (state, store)
            }
        },
        _ => (state, store),
    }
}

/// Whether the marker under `keys[i]` is the first in `keys`, from `from`
/// on, that revokes a snapshot made at `created`.
pub open spec fn first_applicable(
    created: i128,
    keys: Seq<RevocationKey>,
    store: Map<RevocationKey, i64>,
    from: int,
    i: int,
) -> bool {
    &&& from <= i < keys.len()
    &&& marker_applies(created, reading_of(store, keys[i]))
    &&& forall|j: int|
        from <= j < i ==> !marker_applies(created, reading_of(store, #[trigger] keys[j]))
}

/// Whether no marker under `keys`, from `from` on, revokes a snapshot made
/// at `created`.
pub open spec fn none_applicable(
    created: i128,
    keys: Seq<RevocationKey>,
    store: Map<RevocationKey, i64>,
    from: int,
) -> bool {
    forall|j: int|
        from <= j < keys.len() ==> !marker_applies(created, reading_of(store, #[trigger] keys[j]))
}

/// The end of a lookup that found the first applicable marker under `key`.
pub open spec fn revoked_by(key: RevocationKey, store: Map<RevocationKey, i64>) -> (
    CacheStateView,
    Map<RevocationKey, i64>,
) {
    if key.single_use() {
        (CacheStateView::Stale { consumed: Some(key) }, store.remove(key))
    } else {
        (CacheStateView::Stale { consumed: None }, store)
    }
}

/// A lookup ends fresh, with every marker left in place, when no marker
/// that is still to be read applies; and it ends stale at the first one
/// that does.
pub proof fn lemma_settle(
    grants: Map<u128, WorkspaceGrant>,
    created: i128,
    keys: Seq<RevocationKey>,
    position: int,
    store: Map<RevocationKey, i64>,
)
    requires
        0 <= position < keys.len(),
    ensures
        none_applicable(created, keys, store, position) ==> settle(
            CacheStateView::Checking { grants, created, keys, position },
            store,
        ) == (CacheStateView::Fresh { grants }, store),
        forall|i: int|
            first_applicable(created, keys, store, position, i) ==> settle(
                CacheStateView::Checking { grants, created, keys, position },
                store,
            ) == #[trigger] revoked_by(keys[i], store),
    decreases keys.len() - position,
{
    if !marker_applies(created, reading_of(store, keys[position])) && position + 1 < keys.len() {
        lemma_settle(grants, created, keys, position + 1, store);
    }
}

/// Where some marker applies, one of them is the first.
proof fn lemma_first_exists(
    created: i128,
    keys: Seq<RevocationKey>,
    store: Map<RevocationKey, i64>,
    i: int,
) -> (first: int)
    requires
        0 <= i < keys.len(),
        marker_applies(created, reading_of(store, keys[i])),
    ensures
        first_applicable(created, keys, store, 0, first),
        first <= i,
    decreases i,
{
    if exists|j: int| 0 <= j < i && marker_applies(created, reading_of(store, keys[j])) {
        let j = choose|j: int| 0 <= j < i && marker_applies(created, reading_of(store, keys[j]));
        lemma_first_exists(created, keys, store, j)
    } else {
        i
    }
}

/// A cached snapshot is turned away exactly when some marker of its ledger
/// is younger than it; otherwise its grants are the result and no marker
/// is touched.
pub proof fn lemma_snapshot_rejected_iff_marker_applies(
    grants: Map<u128, WorkspaceGrant>,
    created: i128,
    user_id: u128,
    login_id: u128,
    store: Map<RevocationKey, i64>,
)
    ensures
        ({
            let keys = ledger_keys(user_id, login_id, listing(grants.dom()));
            let end = settle(lookup_start(Some((grants, created)), user_id, login_id), store);
            let revoked = exists|i: int|
                0 <= i < keys.len() && marker_applies(
                    created,
                    reading_of(store, #[trigger] keys[i]),
                );
            &&& revoked <==> end.0 is Stale
            &&& !revoked <==> end == (CacheStateView::Fresh { grants }, store)
        }),
{
    let keys = ledger_keys(user_id, login_id, listing(grants.dom()));
    lemma_settle(grants, created, keys, 0, store);
    if exists|i: int|
        0 <= i < keys.len() && marker_applies(created, reading_of(store, #[trigger] keys[i])) {
        let i = choose|i: int|
            0 <= i < keys.len() && marker_applies(created, reading_of(store, #[trigger] keys[i]));
        let first = lemma_first_exists(created, keys, store, i);
        assert(settle(lookup_start(Some((grants, created)), user_id, login_id), store)
            == revoked_by(keys[first], store));
    }
}

/// A marker stamped with the very second at which the snapshot was made
/// does not revoke it: only a strictly younger marker does.
pub proof fn lemma_marker_at_creation_does_not_apply(created: i128, seconds: i64)
    requires
        instant_of_unix_seconds(seconds) == Some(created),
    ensures
        !marker_applies(created, Some(seconds)),
{
}

/// A login's or a workspace's marker revokes once. The lookup that meets it
/// ends stale and deletes it; where no other marker applied, the next
/// lookup with the same snapshot ends fresh and leaves the markers alone.
pub proof fn lemma_single_use_marker_revokes_once(
    grants: Map<u128, WorkspaceGrant>,
    created: i128,
    user_id: u128,
    login_id: u128,
    store: Map<RevocationKey, i64>,
    i: int,
)
    requires
        ({
            let keys = ledger_keys(user_id, login_id, listing(grants.dom()));
            &&& 0 <= i < keys.len()
            &&& keys[i].single_use()
            &&& marker_applies(created, reading_of(store, keys[i]))
            &&& forall|j: int|
                0 <= j < keys.len() && marker_applies(
                    created,
                    reading_of(store, #[trigger] keys[j]),
                ) ==> keys[j] == keys[i]
        }),
    ensures
        ({
            let keys = ledger_keys(user_id, login_id, listing(grants.dom()));
            let start = lookup_start(Some((grants, created)), user_id, login_id);
            let first = settle(start, store);
            let second = settle(start, first.1);
            &&& first == (CacheStateView::Stale { consumed: Some(keys[i]) }, store.remove(keys[i]))
            &&& second == (CacheStateView::Fresh { grants }, first.1)
        }),
{
    let keys = ledger_keys(user_id, login_id, listing(grants.dom()));
    let left = store.remove(keys[i]);
    lemma_settle(grants, created, keys, 0, store);
    lemma_settle(grants, created, keys, 0, left);
    let first = lemma_first_exists(created, keys, store, i);
    assert(revoked_by(keys[first], store) == (
        CacheStateView::Stale { consumed: Some(keys[i]) },
        left,
    ));
}

/// A user's marker and the global one stay in place when they revoke a
/// snapshot, so that they revoke the snapshots of other logins too.
pub proof fn lemma_lasting_marker_stays(
    grants: Map<u128, WorkspaceGrant>,
    created: i128,
    user_id: u128,
    login_id: u128,
    store: Map<RevocationKey, i64>,
    i: int,
)
    requires
        ({
            let keys = ledger_keys(user_id, login_id, listing(grants.dom()));
            &&& first_applicable(created, keys, store, 0, i)
            &&& !keys[i].single_use()
        }),
    ensures
        settle(lookup_start(Some((grants, created)), user_id, login_id), store) == (
            CacheStateView::Stale { consumed: None },
            store,
        ),
{
    let keys = ledger_keys(user_id, login_id, listing(grants.dom()));
    lemma_settle(grants, created, keys, 0, store);
    assert(revoked_by(keys[i], store) == (CacheStateView::Stale { consumed: None }, store));
}

/// The ledger of a snapshot holds the key of every workspace of the
/// snapshot.
pub proof fn lemma_ledger_holds_workspaces(
    grants: Map<u128, WorkspaceGrant>,
    user_id: u128,
    login_id: u128,
    workspace: u128,
) -> (at: int)
    requires
        grants.dom().finite(),
        grants.contains_key(workspace),
    ensures
        0 <= at < ledger_keys(user_id, login_id, listing(grants.dom())).len(),
        ledger_keys(user_id, login_id, listing(grants.dom()))[at] == RevocationKey::Workspace(
            workspace,
        ),
{
    let ids = listing(grants.dom());
    lemma_listing_exists(grants.dom());
    let i = choose|i: int| 0 <= i < ids.len() && ids[i] == workspace;
    2 + i
}

/// A marker under the key of a workspace makes every snapshot stale that
/// holds the workspace and is older than the marker, whatever else the
/// store holds; a snapshot that is as young as the marker or younger is
/// served, unless another marker revokes it.
pub proof fn lemma_workspace_marker_revokes_older_snapshots(
    grants: Map<u128, WorkspaceGrant>,
    created: i128,
    user_id: u128,
    login_id: u128,
    store: Map<RevocationKey, i64>,
    workspace: u128,
)
    requires
        grants.dom().finite(),
        grants.contains_key(workspace),
        store.contains_key(RevocationKey::Workspace(workspace)),
    ensures
        ({
            let keys = ledger_keys(user_id, login_id, listing(grants.dom()));
            let marker = RevocationKey::Workspace(workspace);
            let end = settle(lookup_start(Some((grants, created)), user_id, login_id), store);
            &&& marker_applies(created, Some(store[marker])) ==> end.0 is Stale
            &&& !marker_applies(created, Some(store[marker])) && (forall|i: int|
                0 <= i < keys.len() && marker_applies(
                    created,
                    reading_of(store, #[trigger] keys[i]),
                ) ==> keys[i] == marker) ==> end == (CacheStateView::Fresh { grants }, store)
        }),
{
    let at = lemma_ledger_holds_workspaces(grants, user_id, login_id, workspace);
    lemma_snapshot_rejected_iff_marker_applies(grants, created, user_id, login_id, store);
}

} // verus!
