//! The grant set: what one identity may do in each workspace.
//!
//! A grant set is built from three kinds of rows, applied in a fixed order:
//! the workspaces on which the identity is super-admin, the rows that take a
//! resource away from a permission, and the rows that give one. The closed
//! form of the result is [`resolved_grants`]; [`GrantSet::resolve`] computes it.

use std::collections::BTreeMap;
use std::collections::BTreeSet;
use vstd::prelude::*;
use vstd::std_specs::btree::spec_keys_iter;
use vstd::std_specs::cmp::OrdSpec;
use vstd::std_specs::iter::IteratorSpec;

verus! {

broadcast use {vstd::std_specs::btree::group_btree_axioms, vstd::laws_cmp::group_laws_cmp};

/// How the resources of one permission are selected inside a workspace.
#[derive(Debug, Clone, PartialEq, Eq)]
pub enum ResourcePermissionType {
    /// The permission holds on exactly these resources.
    Include(BTreeSet<u128>),
    /// The permission holds on every resource of the workspace but these.
    Exclude(BTreeSet<u128>),
}

/// What an identity may do in one workspace.
#[derive(Debug, Clone, PartialEq, Eq)]
pub enum WorkspacePermission {
    /// Every permission on every resource.
    SuperAdmin,
    /// The permissions listed, each with its selection of resources.
    Member { permissions: BTreeMap<u128, ResourcePermissionType> },
}

/// One row of a rule table: in `workspace_id`, the rule names `resource_id`
/// for `permission_id`.
#[derive(Debug, Clone, Copy, PartialEq, Eq, Structural)]
pub struct PermissionRow {
    pub workspace_id: u128,
    pub resource_id: u128,
    pub permission_id: u128,
}

/// The resolved grants of one identity, by workspace id.
#[derive(Debug, Clone, PartialEq, Eq)]
pub struct GrantSet {
    pub workspaces: BTreeMap<u128, WorkspacePermission>,
}

/// The mathematical value of a [`ResourcePermissionType`].
pub enum ResourceRule {
    Include(Set<u128>),
    Exclude(Set<u128>),
}

/// The mathematical value of a [`WorkspacePermission`].
pub enum WorkspaceGrant {
    SuperAdmin,
    Member(Map<u128, ResourceRule>),
}

impl View for ResourcePermissionType {
    type V = ResourceRule;

    open spec fn view(&self) -> ResourceRule {
        match self {
            ResourcePermissionType::Include(s) => ResourceRule::Include(s@),
            ResourcePermissionType::Exclude(s) => ResourceRule::Exclude(s@),
        }
    }
}

impl View for WorkspacePermission {
    type V = WorkspaceGrant;

    open spec fn view(&self) -> WorkspaceGrant {
        match self {
            WorkspacePermission::SuperAdmin => WorkspaceGrant::SuperAdmin,
            WorkspacePermission::Member { permissions } => WorkspaceGrant::Member(
                permissions@.map_values(|t: ResourcePermissionType| t@),
            ),
        }
    }
}

impl View for GrantSet {
    type V = Map<u128, WorkspaceGrant>;

    open spec fn view(&self) -> Map<u128, WorkspaceGrant> {
        self.workspaces@.map_values(|w: WorkspacePermission| w@)
    }
}

impl ResourceRule {
    /// Whether the rule lets `resource` through.
    pub open spec fn admits(self, resource: u128) -> bool {
        match self {
            ResourceRule::Include(s) => s.contains(resource),
            ResourceRule::Exclude(s) => !s.contains(resource),
        }
    }
}

/// Whether `grants` allow `permission` on `resource` in `workspace`.
pub open spec fn permits(
    grants: Map<u128, WorkspaceGrant>,
    workspace: u128,
    permission: u128,
    resource: u128,
) -> bool {
    grants.contains_key(workspace) && match grants[workspace] {
        WorkspaceGrant::SuperAdmin => true,
        WorkspaceGrant::Member(rules) => rules.contains_key(permission)
            && rules[permission].admits(resource),
    }
}

/// The rules of a member after one row that takes a resource away. A
/// permission that already selects by inclusion is left as it is.
pub open spec fn rules_with_exclude(
    rules: Map<u128, ResourceRule>,
    permission: u128,
    resource: u128,
) -> Map<u128, ResourceRule> {
    if !rules.contains_key(permission) {
        rules.insert(permission, ResourceRule::Exclude(set![resource]))
    } else {
        match rules[permission] {
            ResourceRule::Exclude(s) => rules.insert(
                permission,
                ResourceRule::Exclude(s.insert(resource)),
            ),
            ResourceRule::Include(_) => rules,
        }
    }
}

/// The rules of a member after one row that gives a resource: it joins an
/// inclusion, and leaves an exclusion.
pub open spec fn rules_with_include(
    rules: Map<u128, ResourceRule>,
    permission: u128,
    resource: u128,
) -> Map<u128, ResourceRule> {
    if !rules.contains_key(permission) {
        rules.insert(permission, ResourceRule::Include(set![resource]))
    } else {
        match rules[permission] {
            ResourceRule::Include(s) => rules.insert(
                permission,
                ResourceRule::Include(s.insert(resource)),
            ),
            ResourceRule::Exclude(s) => rules.insert(
                permission,
                ResourceRule::Exclude(s.remove(resource)),
            ),
        }
    }
}

/// The grants after the workspace was marked super-admin.
pub open spec fn grants_with_super_admin(
    grants: Map<u128, WorkspaceGrant>,
    workspace: u128,
) -> Map<u128, WorkspaceGrant> {
    grants.insert(workspace, WorkspaceGrant::SuperAdmin)
}

/// The grants after one row that takes a resource away. A super-admin
/// workspace is left as it is.
pub open spec fn grants_with_exclude(
    grants: Map<u128, WorkspaceGrant>,
    row: PermissionRow,
) -> Map<u128, WorkspaceGrant> {
    if !grants.contains_key(row.workspace_id) {
        grants.insert(
            row.workspace_id,
            WorkspaceGrant::Member(
                rules_with_exclude(Map::empty(), row.permission_id, row.resource_id),
            ),
        )
    } else {
        match grants[row.workspace_id] {
            WorkspaceGrant::SuperAdmin => grants,
            WorkspaceGrant::Member(rules) => grants.insert(
                row.workspace_id,
                WorkspaceGrant::Member(
                    rules_with_exclude(rules, row.permission_id, row.resource_id),
                ),
            ),
        }
    }
}

/// The grants after one row that gives a resource. A super-admin workspace
/// is left as it is.
pub open spec fn grants_with_include(
    grants: Map<u128, WorkspaceGrant>,
    row: PermissionRow,
) -> Map<u128, WorkspaceGrant> {
    if !grants.contains_key(row.workspace_id) {
        grants.insert(
            row.workspace_id,
            WorkspaceGrant::Member(
                rules_with_include(Map::empty(), row.permission_id, row.resource_id),
            ),
        )
    } else {
        match grants[row.workspace_id] {
            WorkspaceGrant::SuperAdmin => grants,
            WorkspaceGrant::Member(rules) => grants.insert(
                row.workspace_id,
                WorkspaceGrant::Member(
                    rules_with_include(rules, row.permission_id, row.resource_id),
                ),
            ),
        }
    }
}

/// The resources that `rows` name for `permission` in `workspace`.
pub open spec fn selected(rows: Seq<PermissionRow>, workspace: u128, permission: u128) -> Set<
    u128,
> {
    Set::new(
        |resource: u128|
            rows.contains(
                PermissionRow {
                    workspace_id: workspace,
                    resource_id: resource,
                    permission_id: permission,
                },
            ),
    )
}

/// Whether some row of `rows` is about `permission` in `workspace`.
pub open spec fn names_permission(
    rows: Seq<PermissionRow>,
    workspace: u128,
    permission: u128,
) -> bool {
    exists|resource: u128|
        rows.contains(
            PermissionRow {
                workspace_id: workspace,
                resource_id: resource,
                permission_id: permission,
            },
        )
}

/// Whether some row of `rows` is about `workspace`.
pub open spec fn names_workspace(rows: Seq<PermissionRow>, workspace: u128) -> bool {
    exists|resource: u128, permission: u128|
        rows.contains(
            PermissionRow {
                workspace_id: workspace,
                resource_id: resource,
                permission_id: permission,
            },
        )
}

/// The rule that resolution gives `permission` in a member workspace. Where
/// a row takes a resource away the permission selects by exclusion, and the
/// resources that other rows give are taken out of the exclusion again.
/// Otherwise it selects the resources given.
pub open spec fn resolved_rule(
    excludes: Seq<PermissionRow>,
    includes: Seq<PermissionRow>,
    workspace: u128,
    permission: u128,
) -> ResourceRule {
    if names_permission(excludes, workspace, permission) {
        ResourceRule::Exclude(
            selected(excludes, workspace, permission).difference(
                selected(includes, workspace, permission),
            ),
        )
    } else {
        ResourceRule::Include(selected(includes, workspace, permission))
    }
}

/// The rules that resolution gives a member workspace: one for each
/// permission that a row names there.
pub open spec fn resolved_rules(
    excludes: Seq<PermissionRow>,
    includes: Seq<PermissionRow>,
    workspace: u128,
) -> Map<u128, ResourceRule> {
    Map::new(
        |permission: u128|
            names_permission(excludes, workspace, permission) || names_permission(
                includes,
                workspace,
                permission,
            ),
        |permission: u128| resolved_rule(excludes, includes, workspace, permission),
    )
}

/// The grant set that resolution gives. A workspace is in it when it is
/// listed as super-admin or a row names it; super-admin wins over rows.
/// Nothing but the sets of rows enters, so the order of rows does not matter.
pub open spec fn resolved_grants(
    super_admins: Seq<u128>,
    excludes: Seq<PermissionRow>,
    includes: Seq<PermissionRow>,
) -> Map<u128, WorkspaceGrant> {
    Map::new(
        |workspace: u128|
            super_admins.contains(workspace) || names_workspace(excludes, workspace)
                || names_workspace(includes, workspace),
        |workspace: u128|
            if super_admins.contains(workspace) {
                WorkspaceGrant::SuperAdmin
            } else {
                WorkspaceGrant::Member(resolved_rules(excludes, includes, workspace))
            },
    )
}

/// Whether each id is smaller than the ones after it.
pub open spec fn strictly_increasing(ids: Seq<u128>) -> bool {
    forall|i: int, j: int| 0 <= i < j < ids.len() ==> ids[i] < ids[j]
}

/// Whether `ids` lists the members of `of` in increasing order.
pub open spec fn is_listing(ids: Seq<u128>, of: Set<u128>) -> bool {
    strictly_increasing(ids) && ids.to_set() == of
}

/// The members of a finite set in increasing order.
pub open spec fn listing(of: Set<u128>) -> Seq<u128> {
    choose|ids: Seq<u128>| is_listing(ids, of)
}

/// The largest member of an increasing sequence is its last.
proof fn lemma_last_is_largest(ids: Seq<u128>, of: Set<u128>)
    requires
        is_listing(ids, of),
        ids.len() > 0,
    ensures
        of.contains(ids.last()),
        forall|x: u128| of.contains(x) ==> x <= ids.last(),
        is_listing(ids.drop_last(), of.remove(ids.last())),
{
    let rest = ids.drop_last();
    assert forall|x: u128| rest.to_set().contains(x) == of.remove(ids.last()).contains(x) by {
        if of.remove(ids.last()).contains(x) {
            let i = choose|i: int| 0 <= i < ids.len() && ids[i] == x;
            assert(rest[i] == x);
        }
    }
    assert(rest.to_set() =~= of.remove(ids.last()));
}

/// A set has one listing in increasing order.
pub proof fn lemma_listing_unique(a: Seq<u128>, b: Seq<u128>, of: Set<u128>)
    requires
        is_listing(a, of),
        is_listing(b, of),
    ensures
        a == b,
    decreases a.len(),
{
    if a.len() == 0 {
        if b.len() > 0 {
            assert(b.to_set().contains(b[0]));
        }
    } else {
        lemma_last_is_largest(a, of);
        lemma_last_is_largest(b, of);
        lemma_listing_unique(a.drop_last(), b.drop_last(), of.remove(a.last()));
        assert(a =~= a.drop_last().push(a.last()));
    }
}

/// A finite set of ids that is not empty has a largest member.
proof fn lemma_has_largest(of: Set<u128>) -> (largest: u128)
    requires
        of.finite(),
        of.len() > 0,
    ensures
        of.contains(largest),
        forall|x: u128| of.contains(x) ==> x <= largest,
    decreases of.len(),
{
    let one = of.choose();
    let rest = of.remove(one);
    if rest.len() == 0 {
        assert forall|x: u128| of.contains(x) implies x <= one by {}
        one
    } else {
        let other = lemma_has_largest(rest);
        let largest = if one <= other {
            other
        } else {
            one
        };
        assert forall|x: u128| of.contains(x) implies x <= largest by {}
        largest
    }
}

/// Every finite set of ids has a listing in increasing order.
pub proof fn lemma_listing_exists(of: Set<u128>)
    requires
        of.finite(),
    ensures
        is_listing(listing(of), of),
    decreases of.len(),
{
    if of.len() == 0 {
        assert(Seq::<u128>::empty().to_set() =~= of);
        assert(is_listing(Seq::<u128>::empty(), of));
    } else {
        let largest = lemma_has_largest(of);
        let rest = of.remove(largest);
        lemma_listing_exists(rest);
        let ids = listing(rest).push(largest);
        assert forall|i: int, j: int| 0 <= i < j < ids.len() implies ids[i] < ids[j] by {
            assert(listing(rest).to_set().contains(ids[i]));
        }
        assert forall|x: u128| ids.to_set().contains(x) == of.contains(x) by {
            if of.contains(x) {
                if x == largest {
                    assert(ids[ids.len() - 1] == x);
                } else {
                    let i = choose|i: int| 0 <= i < listing(rest).len() && listing(rest)[i] == x;
                    assert(ids[i] == x);
                }
            }
        }
        assert(ids.to_set() =~= of);
        assert(is_listing(ids, of));
    }
}

/// A set that holds one resource.
fn single_resource(resource: u128) -> (s: BTreeSet<u128>)
    ensures
        s@ == set![resource],
{
    let mut s = BTreeSet::new();
    s.insert(resource);
    s
}

/// Applies one row that takes a resource away to the rules of a member.
fn exclude_in_rules(
    rules: &mut BTreeMap<u128, ResourcePermissionType>,
    permission: u128,
    resource: u128,
)
    ensures
        final(rules)@.map_values(|t: ResourcePermissionType| t@) == rules_with_exclude(
            old(rules)@.map_values(|t: ResourcePermissionType| t@),
            permission,
            resource,
        ),
{
    let updated = match rules.remove(&permission) {
        None => ResourcePermissionType::Exclude(single_resource(resource)),
        Some(ResourcePermissionType::Exclude(mut resources)) => {
            resources.insert(resource);
            ResourcePermissionType::Exclude(resources)
        },
        Some(ResourcePermissionType::Include(resources)) => ResourcePermissionType::Include(
            resources,
        ),
    };
    rules.insert(permission, updated);
}

/// Applies one row that gives a resource to the rules of a member.
fn include_in_rules(
    rules: &mut BTreeMap<u128, ResourcePermissionType>,
    permission: u128,
    resource: u128,
)
    ensures
        final(rules)@.map_values(|t: ResourcePermissionType| t@) == rules_with_include(
            old(rules)@.map_values(|t: ResourcePermissionType| t@),
            permission,
            resource,
        ),
{
    let updated = match rules.remove(&permission) {
        None => ResourcePermissionType::Include(single_resource(resource)),
        Some(ResourcePermissionType::Include(mut resources)) => {
            resources.insert(resource);
            ResourcePermissionType::Include(resources)
        },
        Some(ResourcePermissionType::Exclude(mut resources)) => {
            resources.remove(&resource);
            ResourcePermissionType::Exclude(resources)
        },
    };
    rules.insert(permission, updated);
}

impl GrantSet {
    /// A grant set holds finitely many workspaces.
    pub proof fn lemma_finite(self)
        ensures
            self@.dom().finite(),
    {
        assert(self@.dom() =~= self.workspaces@.dom());
    }

    /// The empty grant set.
    pub fn new() -> (grants: GrantSet)
        ensures
            grants@ == Map::<u128, WorkspaceGrant>::empty(),
    {
        let grants = GrantSet { workspaces: BTreeMap::new() };
        grants
    }

    /// Marks `workspace` as super-admin, whatever it held before.
    pub fn add_super_admin(&mut self, workspace: u128)
        ensures
            final(self)@ == grants_with_super_admin(old(self)@, workspace),
    {
        self.workspaces.insert(workspace, WorkspacePermission::SuperAdmin);
    }

    /// Applies one row that takes a resource away from a permission.
    pub fn apply_exclude(&mut self, row: PermissionRow)
        ensures
            final(self)@ == grants_with_exclude(old(self)@, row),
    {
        let updated = match self.workspaces.remove(&row.workspace_id) {
            None => {
                let mut permissions = BTreeMap::new();
                assert(permissions@.map_values(|t: ResourcePermissionType| t@) =~= Map::<
                    u128,
                    ResourceRule,
                >::empty());
                exclude_in_rules(&mut permissions, row.permission_id, row.resource_id);
                WorkspacePermission::Member { permissions }
            },
            Some(WorkspacePermission::SuperAdmin) => {
                WorkspacePermission::SuperAdmin
            },
            Some(WorkspacePermission::Member { mut permissions }) => {
                exclude_in_rules(&mut permissions, row.permission_id, row.resource_id);
                WorkspacePermission::Member { permissions }
            },
        };
        self.workspaces.insert(row.workspace_id, updated);
    }

    /// Applies one row that gives a resource to a permission.
    pub fn apply_include(&mut self, row: PermissionRow)
        ensures
            final(self)@ == grants_with_include(old(self)@, row),
    {
        let updated = match self.workspaces.remove(&row.workspace_id) {
            None => {
                let mut permissions = BTreeMap::new();
                assert(permissions@.map_values(|t: ResourcePermissionType| t@) =~= Map::<
                    u128,
                    ResourceRule,
                >::empty());
                include_in_rules(&mut permissions, row.permission_id, row.resource_id);
                WorkspacePermission::Member { permissions }
            },
            Some(WorkspacePermission::SuperAdmin) => {
                WorkspacePermission::SuperAdmin
            },
            Some(WorkspacePermission::Member { mut permissions }) => {
                include_in_rules(&mut permissions, row.permission_id, row.resource_id);
                WorkspacePermission::Member { permissions }
            },
        };
        self.workspaces.insert(row.workspace_id, updated);
    }

    /// Resolves the grants of one identity from the rows read for it: first
    /// the super-admin workspaces, then the rows that take resources away,
    /// then the rows that give them.
    pub fn resolve(
        super_admins: &Vec<u128>,
        excludes: &Vec<PermissionRow>,
        includes: &Vec<PermissionRow>,
    ) -> (grants: GrantSet)
        ensures
            grants@ == resolved_grants(super_admins@, excludes@, includes@),
    {
        let ghost none = Seq::<PermissionRow>::empty();
        let mut grants = GrantSet::new();
        let mut i: usize = 0;
        while i < super_admins.len()
            invariant
                i <= super_admins.len(),
                none == Seq::<PermissionRow>::empty(),
                grants@ == resolved_grants(super_admins@.take(i as int), none, none),
            decreases super_admins.len() - i,
        {
            proof {
                lemma_super_admin_step(super_admins@.take(i as int), super_admins@[i as int]);
                assert(super_admins@.take(i as int).push(super_admins@[i as int])
                    =~= super_admins@.take(i + 1));
            }
            grants.add_super_admin(super_admins[i]);
            i += 1;
        }
        assert(super_admins@.take(i as int) =~= super_admins@);
        let mut j: usize = 0;
        while j < excludes.len()
            invariant
                j <= excludes.len(),
                none == Seq::<PermissionRow>::empty(),
                grants@ == resolved_grants(super_admins@, excludes@.take(j as int), none),
            decreases excludes.len() - j,
        {
            proof {
                lemma_exclude_step(super_admins@, excludes@.take(j as int), excludes@[j as int]);
                assert(excludes@.take(j as int).push(excludes@[j as int]) =~= excludes@.take(
                    j + 1,
                ));
            }
            grants.apply_exclude(excludes[j]);
            j += 1;
        }
        assert(excludes@.take(j as int) =~= excludes@);
        assert(includes@.take(0) =~= none);
        let mut k: usize = 0;
        while k < includes.len()
            invariant
                k <= includes.len(),
                grants@ == resolved_grants(super_admins@, excludes@, includes@.take(k as int)),
            decreases includes.len() - k,
        {
            proof {
                lemma_include_step(
                    super_admins@,
                    excludes@,
                    includes@.take(k as int),
                    includes@[k as int],
                );
                assert(includes@.take(k as int).push(includes@[k as int]) =~= includes@.take(
                    k + 1,
                ));
            }
            grants.apply_include(includes[k]);
            k += 1;
        }
        assert(includes@.take(k as int) =~= includes@);
        grants
    }

    /// The ids of the workspaces that the grant set holds, in increasing order.
    pub fn workspace_ids(&self) -> (ids: Vec<u128>)
        ensures
            is_listing(ids@, self@.dom()),
            ids@ == listing(self@.dom()),
    {
        let mut ids: Vec<u128> = Vec::new();
        let keys = self.workspaces.keys();
        let ghost all = spec_keys_iter(&self.workspaces).remaining();
        for id in it: keys
            invariant
                it.seq() == all,
                ids@.len() == it.index(),
                forall|i: int| 0 <= i < ids@.len() ==> ids@[i] == *all[i],
        {
            ids.push(*id);
        }
        proof {
            assert(ids@ =~= all.unref());
            assert(self@.dom() =~= self.workspaces@.dom());
            assert forall|i: int, j: int| 0 <= i < j < ids@.len() implies ids@[i] < ids@[j] by {
                assert(OrdSpec::cmp_spec(&all[i], &all[j]) is Less);
            }
            lemma_listing_unique(ids@, listing(self@.dom()), self@.dom());
        }
        ids
    }

    /// Whether the grants allow `permission` on `resource` in `workspace`.
    pub fn permits(&self, workspace: u128, permission: u128, resource: u128) -> (allowed: bool)
        ensures
            allowed == permits(self@, workspace, permission, resource),
    {
        match self.workspaces.get(&workspace) {
            None => false,
            Some(WorkspacePermission::SuperAdmin) => true,
            Some(WorkspacePermission::Member { permissions }) => {
                match permissions.get(&permission) {
                    None => false,
                    Some(ResourcePermissionType::Include(resources)) => resources.contains(
                        &resource,
                    ),
                    Some(ResourcePermissionType::Exclude(resources)) => !resources.contains(
                        &resource,
                    ),
                }
            },
        }
    }
}

/// What a sequence holds after one more element.
proof fn lemma_push_contains<T>(s: Seq<T>, x: T)
    ensures
        forall|y: T| #[trigger] s.push(x).contains(y) <==> (s.contains(y) || y == x),
{
    assert forall|y: T| #[trigger] s.push(x).contains(y) <==> (s.contains(y) || y == x) by {
        if s.contains(y) {
            let i = choose|i: int| 0 <= i < s.len() && s[i] == y;
            assert(s.push(x)[i] == y);
        }
        if y == x {
            assert(s.push(x)[s.len() as int] == y);
        }
    }
}

/// What the rows name after one more row.
proof fn lemma_push_row(rows: Seq<PermissionRow>, row: PermissionRow)
    ensures
        forall|w: u128| #[trigger]
            names_workspace(rows.push(row), w) <==> (names_workspace(rows, w) || w
                == row.workspace_id),
        forall|w: u128, p: u128| #[trigger]
            names_permission(rows.push(row), w, p) <==> (names_permission(rows, w, p) || (w
                == row.workspace_id && p == row.permission_id)),
        forall|w: u128, p: u128|
            (w == row.workspace_id && p == row.permission_id) ==> #[trigger] selected(
                rows.push(row),
                w,
                p,
            ) == selected(rows, w, p).insert(row.resource_id),
        forall|w: u128, p: u128|
            !(w == row.workspace_id && p == row.permission_id) ==> #[trigger] selected(
                rows.push(row),
                w,
                p,
            ) == selected(rows, w, p),
{
    lemma_push_contains(rows, row);
    assert forall|w: u128| #[trigger]
        names_workspace(rows.push(row), w) <==> (names_workspace(rows, w) || w
            == row.workspace_id) by {
        if w == row.workspace_id {
            assert(rows.push(row).contains(
                PermissionRow {
                    workspace_id: w,
                    resource_id: row.resource_id,
                    permission_id: row.permission_id,
                },
            ));
        }
        if names_workspace(rows, w) {
            let (r, p) = choose|r: u128, p: u128|
                rows.contains(PermissionRow { workspace_id: w, resource_id: r, permission_id: p });
            assert(rows.push(row).contains(
                PermissionRow { workspace_id: w, resource_id: r, permission_id: p },
            ));
        }
    }
    assert forall|w: u128, p: u128| #[trigger]
        names_permission(rows.push(row), w, p) <==> (names_permission(rows, w, p) || (w
            == row.workspace_id && p == row.permission_id)) by {
        if w == row.workspace_id && p == row.permission_id {
            assert(rows.push(row).contains(
                PermissionRow { workspace_id: w, resource_id: row.resource_id, permission_id: p },
            ));
        }
        if names_permission(rows, w, p) {
            let r = choose|r: u128|
                rows.contains(PermissionRow { workspace_id: w, resource_id: r, permission_id: p });
            assert(rows.push(row).contains(
                PermissionRow { workspace_id: w, resource_id: r, permission_id: p },
            ));
        }
    }
}

/// Rows that do not name a permission select nothing for it.
proof fn lemma_unnamed_selects_nothing(rows: Seq<PermissionRow>, w: u128, p: u128)
    requires
        !names_permission(rows, w, p),
    ensures
        selected(rows, w, p) == Set::<u128>::empty(),
{
}

/// A workspace that no row names has no rules.
proof fn lemma_unnamed_workspace_has_no_rules(
    excludes: Seq<PermissionRow>,
    includes: Seq<PermissionRow>,
    w: u128,
)
    requires
        !names_workspace(excludes, w),
        !names_workspace(includes, w),
    ensures
        resolved_rules(excludes, includes, w) == Map::<u128, ResourceRule>::empty(),
{
    assert forall|p: u128| !names_permission(excludes, w, p) && !names_permission(
        includes,
        w,
        p,
    ) by {}
}

/// One more super-admin workspace, before any row is applied.
proof fn lemma_super_admin_step(super_admins: Seq<u128>, workspace: u128)
    ensures
        grants_with_super_admin(
            resolved_grants(super_admins, Seq::empty(), Seq::empty()),
            workspace,
        ) == resolved_grants(super_admins.push(workspace), Seq::empty(), Seq::empty()),
{
    lemma_push_contains(super_admins, workspace);
}

/// The rules of one workspace after one more row that takes a resource away,
/// before any row that gives one is applied.
proof fn lemma_exclude_rules_step(excludes: Seq<PermissionRow>, row: PermissionRow)
    ensures
        rules_with_exclude(
            resolved_rules(excludes, Seq::empty(), row.workspace_id),
            row.permission_id,
            row.resource_id,
        ) == resolved_rules(excludes.push(row), Seq::empty(), row.workspace_id),
{
    let none = Seq::<PermissionRow>::empty();
    let w = row.workspace_id;
    let before = resolved_rules(excludes, none, w);
    let after = resolved_rules(excludes.push(row), none, w);
    let stepped = rules_with_exclude(before, row.permission_id, row.resource_id);
    lemma_push_row(excludes, row);
    assert forall|p: u128| selected(none, w, p) == Set::<u128>::empty() by {}
    if !names_permission(excludes, w, row.permission_id) {
        lemma_unnamed_selects_nothing(excludes, w, row.permission_id);
    }
    assert forall|p: u128| stepped.contains_key(p) implies stepped[p] == after[p] by {
        if p == row.permission_id {
            assert(selected(excludes.push(row), w, p).difference(selected(none, w, p))
                =~= selected(excludes, w, p).difference(selected(none, w, p)).insert(
                row.resource_id,
            ));
            assert(set![row.resource_id] =~= Set::<u128>::empty().difference(
                Set::<u128>::empty(),
            ).insert(row.resource_id));
        }
    }
}

/// The rules of one workspace after one more row that gives a resource.
proof fn lemma_include_rules_step(
    excludes: Seq<PermissionRow>,
    includes: Seq<PermissionRow>,
    row: PermissionRow,
)
    ensures
        rules_with_include(
            resolved_rules(excludes, includes, row.workspace_id),
            row.permission_id,
            row.resource_id,
        ) == resolved_rules(excludes, includes.push(row), row.workspace_id),
{
    let w = row.workspace_id;
    let before = resolved_rules(excludes, includes, w);
    let after = resolved_rules(excludes, includes.push(row), w);
    let stepped = rules_with_include(before, row.permission_id, row.resource_id);
    lemma_push_row(includes, row);
    if !names_permission(includes, w, row.permission_id) {
        lemma_unnamed_selects_nothing(includes, w, row.permission_id);
    }
    assert forall|p: u128| stepped.contains_key(p) implies stepped[p] == after[p] by {
        if p == row.permission_id {
            let given = selected(includes, w, p);
            let taken = selected(excludes, w, p);
            assert(taken.difference(given.insert(row.resource_id)) =~= taken.difference(
                given,
            ).remove(row.resource_id));
        }
    }
}

/// The rules of the other workspaces do not change with a row.
proof fn lemma_other_rules_unchanged(
    excludes: Seq<PermissionRow>,
    includes: Seq<PermissionRow>,
    row: PermissionRow,
    w: u128,
)
    requires
        w != row.workspace_id,
    ensures
        resolved_rules(excludes.push(row), includes, w) == resolved_rules(excludes, includes, w),
        resolved_rules(excludes, includes.push(row), w) == resolved_rules(excludes, includes, w),
{
    lemma_push_row(excludes, row);
    lemma_push_row(includes, row);
}

/// One more row that takes a resource away, before any row that gives one.
proof fn lemma_exclude_step(
    super_admins: Seq<u128>,
    excludes: Seq<PermissionRow>,
    row: PermissionRow,
)
    ensures
        grants_with_exclude(resolved_grants(super_admins, excludes, Seq::empty()), row)
            == resolved_grants(super_admins, excludes.push(row), Seq::empty()),
{
    let none = Seq::<PermissionRow>::empty();
    let before = resolved_grants(super_admins, excludes, none);
    let after = resolved_grants(super_admins, excludes.push(row), none);
    let stepped = grants_with_exclude(before, row);
    lemma_push_row(excludes, row);
    lemma_exclude_rules_step(excludes, row);
    if !names_workspace(excludes, row.workspace_id) {
        lemma_unnamed_workspace_has_no_rules(excludes, none, row.workspace_id);
    }
    assert forall|w: u128| stepped.contains_key(w) implies stepped[w] == after[w] by {
        if w != row.workspace_id {
            lemma_other_rules_unchanged(excludes, none, row, w);
        }
    }
}

/// One more row that gives a resource.
proof fn lemma_include_step(
    super_admins: Seq<u128>,
    excludes: Seq<PermissionRow>,
    includes: Seq<PermissionRow>,
    row: PermissionRow,
)
    ensures
        grants_with_include(resolved_grants(super_admins, excludes, includes), row)
            == resolved_grants(super_admins, excludes, includes.push(row)),
{
    let before = resolved_grants(super_admins, excludes, includes);
    let after = resolved_grants(super_admins, excludes, includes.push(row));
    let stepped = grants_with_include(before, row);
    lemma_push_row(includes, row);
    lemma_include_rules_step(excludes, includes, row);
    if !names_workspace(excludes, row.workspace_id) && !names_workspace(
        includes,
        row.workspace_id,
    ) {
        lemma_unnamed_workspace_has_no_rules(excludes, includes, row.workspace_id);
    }
    assert forall|w: u128| stepped.contains_key(w) implies stepped[w] == after[w] by {
        if w != row.workspace_id {
            lemma_other_rules_unchanged(excludes, includes, row, w);
        }
    }
}

/// A resource that a row gives is allowed, whatever rows take it away and
/// in whatever order the rows of each kind come.
pub proof fn lemma_include_dominates(
    super_admins: Seq<u128>,
    excludes: Seq<PermissionRow>,
    includes: Seq<PermissionRow>,
    row: PermissionRow,
)
    requires
        includes.contains(row),
    ensures
        permits(
            resolved_grants(super_admins, excludes, includes),
            row.workspace_id,
            row.permission_id,
            row.resource_id,
        ),
{
}

/// A resource that a row takes away, and no row gives, is not allowed in a
/// workspace on which the identity is not super-admin.
pub proof fn lemma_exclude_holds_unless_included(
    super_admins: Seq<u128>,
    excludes: Seq<PermissionRow>,
    includes: Seq<PermissionRow>,
    row: PermissionRow,
)
    requires
        excludes.contains(row),
        !includes.contains(row),
        !super_admins.contains(row.workspace_id),
    ensures
        !permits(
            resolved_grants(super_admins, excludes, includes),
            row.workspace_id,
            row.permission_id,
            row.resource_id,
        ),
{
}

/// The identity is allowed everything in a workspace on which it is
/// super-admin, whatever the rows say.
pub proof fn lemma_super_admin_permits_all(
    super_admins: Seq<u128>,
    excludes: Seq<PermissionRow>,
    includes: Seq<PermissionRow>,
    workspace: u128,
    permission: u128,
    resource: u128,
)
    requires
        super_admins.contains(workspace),
    ensures
        permits(resolved_grants(super_admins, excludes, includes), workspace, permission, resource),
{
}

/// Two sequences with the same set of elements hold the same elements.
proof fn lemma_same_set_same_members<T>(a: Seq<T>, b: Seq<T>)
    requires
        a.to_set() == b.to_set(),
    ensures
        forall|x: T|
            #![trigger a.contains(x)]
            #![trigger b.contains(x)]
            a.contains(x) == b.contains(x),
{
    assert forall|x: T|
        #![trigger a.contains(x)]
        #![trigger b.contains(x)]
        a.contains(x) == b.contains(x) by {
        assert(a.to_set().contains(x) == a.contains(x));
    }
}

/// Two readings that hold the same rows name and select the same.
proof fn lemma_same_rows_same_names(a: Seq<PermissionRow>, b: Seq<PermissionRow>)
    requires
        forall|x: PermissionRow|
            #![trigger a.contains(x)]
            #![trigger b.contains(x)]
            a.contains(x) == b.contains(x),
    ensures
        forall|w: u128| #[trigger] names_workspace(a, w) == names_workspace(b, w),
        forall|w: u128, p: u128| #[trigger] names_permission(a, w, p) == names_permission(b, w, p),
        forall|w: u128, p: u128| #[trigger] selected(a, w, p) == selected(b, w, p),
{
}

/// Resolution gives the same grants for any two readings of the tables
/// that hold the same rows, in whatever order and however often repeated.
pub proof fn lemma_resolution_ignores_row_order(
    super_admins: Seq<u128>,
    excludes: Seq<PermissionRow>,
    includes: Seq<PermissionRow>,
    super_admins_again: Seq<u128>,
    excludes_again: Seq<PermissionRow>,
    includes_again: Seq<PermissionRow>,
)
    requires
        super_admins.to_set() == super_admins_again.to_set(),
        excludes.to_set() == excludes_again.to_set(),
        includes.to_set() == includes_again.to_set(),
    ensures
        resolved_grants(super_admins, excludes, includes) == resolved_grants(
            super_admins_again,
            excludes_again,
            includes_again,
        ),
{
    lemma_same_set_same_members(super_admins, super_admins_again);
    lemma_same_set_same_members(excludes, excludes_again);
    lemma_same_set_same_members(includes, includes_again);
    lemma_same_rows_same_names(excludes, excludes_again);
    lemma_same_rows_same_names(includes, includes_again);
    assert forall|w: u128|
        resolved_rules(excludes, includes, w) == resolved_rules(
            excludes_again,
            includes_again,
            w,
        ) by {}
}

} // verus!
