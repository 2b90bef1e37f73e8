//! What a delete takes with it, and what it leaves.
//!
//! A row hangs on the rows above it: a bookmark on its group, the group on its
//! workspace, the workspace on its organization, the organization on its
//! user. Deleting a row deletes exactly the rows that hang on it.

use vstd::prelude::*;

use crate::database::state::{belongs, State};
use crate::entity::{bookmark, groups, organization, user, workspace};
use crate::table::{
    find, has_key, key_is_not, lemma_filter_all, lemma_filter_contains, lemma_filter_find,
    lemma_filter_has_key, lemma_find_at, lemma_kept_children, owner_among, owner_in,
};

verus! {

impl State {
    /// The workspace of the group with the key `group_id`.
    pub open spec fn workspace_above_group(self, group_id: i32) -> Option<i32> {
        match find(self.groups, group_id) {
            Some(group) => Some(group.workspace_id),
            None => None,
        }
    }

    /// The organization of the workspace with the key `workspace_id`.
    pub open spec fn organization_above_workspace(self, workspace_id: i32) -> Option<i32> {
        match find(self.workspaces, workspace_id) {
            Some(workspace) => Some(workspace.organization_id),
            None => None,
        }
    }

    /// The user of the organization with the key `organization_id`.
    pub open spec fn user_above_organization(self, organization_id: i32) -> Option<i32> {
        match find(self.organizations, organization_id) {
            Some(organization) => Some(organization.user_id),
            None => None,
        }
    }

    /// The organization of the workspace of the group with the key `group_id`.
    pub open spec fn organization_above_group(self, group_id: i32) -> Option<i32> {
        match self.workspace_above_group(group_id) {
            Some(workspace_id) => self.organization_above_workspace(workspace_id),
            None => None,
        }
    }

    /// The user above the workspace with the key `workspace_id`.
    pub open spec fn user_above_workspace(self, workspace_id: i32) -> Option<i32> {
        match self.organization_above_workspace(workspace_id) {
            Some(organization_id) => self.user_above_organization(organization_id),
            None => None,
        }
    }

    /// The user above the group with the key `group_id`.
    pub open spec fn user_above_group(self, group_id: i32) -> Option<i32> {
        match self.workspace_above_group(group_id) {
            Some(workspace_id) => self.user_above_workspace(workspace_id),
            None => None,
        }
    }

    /// The workspace above a bookmark: that of its group, if it has one.
    pub open spec fn workspace_above_bookmark(self, b: bookmark::Model) -> Option<i32> {
        match b.group_id {
            Some(group_id) => self.workspace_above_group(group_id),
            None => None,
        }
    }

    /// The organization above a bookmark, if it has a group.
    pub open spec fn organization_above_bookmark(self, b: bookmark::Model) -> Option<i32> {
        match b.group_id {
            Some(group_id) => self.organization_above_group(group_id),
            None => None,
        }
    }

    /// The user above a bookmark, if it has a group.
    pub open spec fn user_above_bookmark(self, b: bookmark::Model) -> Option<i32> {
        match b.group_id {
            Some(group_id) => self.user_above_group(group_id),
            None => None,
        }
    }

    /// Deleting a group removes it and the bookmarks that name it, and nothing
    /// else. A bookmark without a group stays.
    pub proof fn lemma_delete_group_cascades(self, id: i32)
        requires
            self.wf(),
        ensures
            self.delete_group(id).wf(),
            self.delete_group(id).users == self.users,
            self.delete_group(id).organizations == self.organizations,
            self.delete_group(id).workspaces == self.workspaces,
            forall|g: groups::Model| #[trigger]
                self.delete_group(id).groups.contains(g) <==> self.groups.contains(g) && g.id != id,
            forall|b: bookmark::Model| #[trigger]
                self.delete_group(id).bookmarks.contains(b) <==> self.bookmarks.contains(b)
                    && b.group_id != Some(id),
    {
        let after = self.delete_group(id);
        self.lemma_delete_group_wf(id);
        lemma_filter_contains(self.groups, key_is_not::<groups::Model>(id));
        lemma_kept_children(self.bookmarks, self.groups, key_is_not::<groups::Model>(id));
        assert forall|b: bookmark::Model| #[trigger]
            after.bookmarks.contains(b) <==> self.bookmarks.contains(b) && b.group_id != Some(
                id,
            ) by {
            if self.bookmarks.contains(b) && b.group_id is Some {
                let at = choose|i: int| 0 <= i < self.bookmarks.len() && self.bookmarks[i] == b;
                assert(owner_in(self.bookmarks[at], self.groups));
                lemma_filter_find(self.groups, key_is_not::<groups::Model>(id), b.group_id->0);
            }
        }
    }

    /// Deleting a workspace removes it, its groups and their bookmarks, and
    /// nothing else.
    pub proof fn lemma_delete_workspace_cascades(self, id: i32)
        requires
            self.wf(),
        ensures
            self.delete_workspace(id).wf(),
            self.delete_workspace(id).users == self.users,
            self.delete_workspace(id).organizations == self.organizations,
            forall|w: workspace::Model| #[trigger]
                self.delete_workspace(id).workspaces.contains(w) <==> self.workspaces.contains(w)
                    && w.id != id,
            forall|g: groups::Model| #[trigger]
                self.delete_workspace(id).groups.contains(g) <==> self.groups.contains(g)
                    && g.workspace_id != id,
            forall|b: bookmark::Model| #[trigger]
                self.delete_workspace(id).bookmarks.contains(b) <==> self.bookmarks.contains(b)
                    && self.workspace_above_bookmark(b) != Some(id),
    {
        let after = self.delete_workspace(id);
        let kept = key_is_not::<workspace::Model>(id);
        self.lemma_delete_workspace_wf(id);
        lemma_filter_contains(self.workspaces, kept);
        lemma_kept_children(self.groups, self.workspaces, kept);
        assert forall|g: groups::Model| #[trigger]
            after.groups.contains(g) <==> self.groups.contains(g) && g.workspace_id != id by {
            if self.groups.contains(g) {
                let at = choose|i: int| 0 <= i < self.groups.len() && self.groups[i] == g;
                assert(has_key(self.workspaces, self.groups[at].workspace_id));
                lemma_filter_find(self.workspaces, kept, g.workspace_id);
            }
        }
        let kept_groups = owner_among::<groups::Model, workspace::Model>(after.workspaces);
        lemma_kept_children(self.bookmarks, self.groups, kept_groups);
        assert forall|b: bookmark::Model| #[trigger]
            after.bookmarks.contains(b) <==> self.bookmarks.contains(b)
                && self.workspace_above_bookmark(b) != Some(id) by {
            if self.bookmarks.contains(b) && b.group_id is Some {
                let at = choose|i: int| 0 <= i < self.bookmarks.len() && self.bookmarks[i] == b;
                assert(owner_in(self.bookmarks[at], self.groups));
                lemma_filter_find(self.groups, kept_groups, b.group_id->0);
                let g = find(self.groups, b.group_id->0)->0;
                assert(self.groups.contains(g));
                let gi = choose|i: int| 0 <= i < self.groups.len() && self.groups[i] == g;
                assert(has_key(self.workspaces, self.groups[gi].workspace_id));
                lemma_filter_find(self.workspaces, kept, g.workspace_id);
            }
        }
    }

    /// Deleting an organization removes it, its workspaces, their groups and
    /// the bookmarks of those, and nothing else.
    pub proof fn lemma_delete_organization_cascades(self, id: i32)
        requires
            self.wf(),
        ensures
            self.delete_organization(id).wf(),
            self.delete_organization(id).users == self.users,
            forall|o: organization::Model| #[trigger]
                self.delete_organization(id).organizations.contains(o)
                    <==> self.organizations.contains(o) && o.id != id,
            forall|w: workspace::Model| #[trigger]
                self.delete_organization(id).workspaces.contains(w) <==> self.workspaces.contains(
                    w,
                ) && w.organization_id != id,
            forall|g: groups::Model| #[trigger]
                self.delete_organization(id).groups.contains(g) <==> self.groups.contains(g)
                    && self.organization_above_workspace(g.workspace_id) != Some(id),
            forall|b: bookmark::Model| #[trigger]
                self.delete_organization(id).bookmarks.contains(b) <==> self.bookmarks.contains(b)
                    && self.organization_above_bookmark(b) != Some(id),
    {
        let after = self.delete_organization(id);
        let kept = key_is_not::<organization::Model>(id);
        self.lemma_delete_organization_wf(id);
        lemma_filter_contains(self.organizations, kept);
        lemma_kept_children(self.workspaces, self.organizations, kept);
        assert forall|w: workspace::Model| #[trigger]
            after.workspaces.contains(w) <==> self.workspaces.contains(w) && w.organization_id
                != id by {
            if self.workspaces.contains(w) {
                self.lemma_workspace_kept(w, kept);
            }
        }
        let kept_workspaces = owner_among::<workspace::Model, organization::Model>(
            after.organizations,
        );
        lemma_kept_children(self.groups, self.workspaces, kept_workspaces);
        assert forall|g: groups::Model| #[trigger]
            after.groups.contains(g) <==> self.groups.contains(g)
                && self.organization_above_workspace(g.workspace_id) != Some(id) by {
            if self.groups.contains(g) {
                self.lemma_group_kept(g, kept_workspaces);
                let w = find(self.workspaces, g.workspace_id)->0;
                self.lemma_workspace_kept(w, kept);
            }
        }
        let kept_groups = owner_among::<groups::Model, workspace::Model>(after.workspaces);
        lemma_kept_children(self.bookmarks, self.groups, kept_groups);
        assert forall|b: bookmark::Model| #[trigger]
            after.bookmarks.contains(b) <==> self.bookmarks.contains(b)
                && self.organization_above_bookmark(b) != Some(id) by {
            if self.bookmarks.contains(b) && b.group_id is Some {
                self.lemma_bookmark_kept(b, kept_groups);
                let g = find(self.groups, b.group_id->0)->0;
                self.lemma_group_kept(g, kept_workspaces);
                let w = find(self.workspaces, g.workspace_id)->0;
                self.lemma_workspace_kept(w, kept);
            }
        }
    }

    /// Deleting a user removes the user, the organizations of the user, and
    /// every workspace, group and bookmark below them, and nothing else.
    pub proof fn lemma_delete_user_cascades(self, id: i32)
        requires
            self.wf(),
        ensures
            self.delete_user(id).wf(),
            forall|u: user::Model| #[trigger]
                self.delete_user(id).users.contains(u) <==> self.users.contains(u) && u.id != id,
            forall|o: organization::Model| #[trigger]
                self.delete_user(id).organizations.contains(o) <==> self.organizations.contains(o)
                    && o.user_id != id,
            forall|w: workspace::Model| #[trigger]
                self.delete_user(id).workspaces.contains(w) <==> self.workspaces.contains(w)
                    && self.user_above_organization(w.organization_id) != Some(id),
            forall|g: groups::Model| #[trigger]
                self.delete_user(id).groups.contains(g) <==> self.groups.contains(g)
                    && self.user_above_workspace(g.workspace_id) != Some(id),
            forall|b: bookmark::Model| #[trigger]
                self.delete_user(id).bookmarks.contains(b) <==> self.bookmarks.contains(b)
                    && self.user_above_bookmark(b) != Some(id),
    {
        let after = self.delete_user(id);
        let kept = key_is_not::<user::Model>(id);
        self.lemma_delete_user_wf(id);
        lemma_filter_contains(self.users, kept);
        lemma_kept_children(self.organizations, self.users, kept);
        assert forall|o: organization::Model| #[trigger]
            after.organizations.contains(o) <==> self.organizations.contains(o) && o.user_id
                != id by {
            if self.organizations.contains(o) {
                self.lemma_organization_kept(o, kept);
            }
        }
        let kept_organizations = owner_among::<organization::Model, user::Model>(after.users);
        lemma_kept_children(self.workspaces, self.organizations, kept_organizations);
        assert forall|w: workspace::Model| #[trigger]
            after.workspaces.contains(w) <==> self.workspaces.contains(w)
                && self.user_above_organization(w.organization_id) != Some(id) by {
            if self.workspaces.contains(w) {
                self.lemma_workspace_kept(w, kept_organizations);
                let o = find(self.organizations, w.organization_id)->0;
                self.lemma_organization_kept(o, kept);
            }
        }
        let kept_workspaces = owner_among::<workspace::Model, organization::Model>(
            after.organizations,
        );
        lemma_kept_children(self.groups, self.workspaces, kept_workspaces);
        assert forall|g: groups::Model| #[trigger]
            after.groups.contains(g) <==> self.groups.contains(g) && self.user_above_workspace(
                g.workspace_id,
            ) != Some(id) by {
            if self.groups.contains(g) {
                self.lemma_group_kept(g, kept_workspaces);
                let w = find(self.workspaces, g.workspace_id)->0;
                self.lemma_workspace_kept(w, kept_organizations);
                let o = find(self.organizations, w.organization_id)->0;
                self.lemma_organization_kept(o, kept);
            }
        }
        let kept_groups = owner_among::<groups::Model, workspace::Model>(after.workspaces);
        lemma_kept_children(self.bookmarks, self.groups, kept_groups);
        assert forall|b: bookmark::Model| #[trigger]
            after.bookmarks.contains(b) <==> self.bookmarks.contains(b)
                && self.user_above_bookmark(b) != Some(id) by {
            if self.bookmarks.contains(b) && b.group_id is Some {
                self.lemma_bookmark_kept(b, kept_groups);
                let g = find(self.groups, b.group_id->0)->0;
                self.lemma_group_kept(g, kept_workspaces);
                let w = find(self.workspaces, g.workspace_id)->0;
                self.lemma_workspace_kept(w, kept_organizations);
                let o = find(self.organizations, w.organization_id)->0;
                self.lemma_organization_kept(o, kept);
            }
        }
    }

    /// The user of a stored organization is stored, and is left by a filter
    /// exactly if it passes.
    proof fn lemma_organization_kept(
        self,
        o: organization::Model,
        pred: spec_fn(user::Model) -> bool,
    )
        requires
            self.wf(),
            self.organizations.contains(o),
        ensures
            find(self.users, o.user_id) matches Some(u) && u.id == o.user_id && self.users.contains(
                u,
            ) && (has_key(self.users.filter(pred), o.user_id) <==> pred(u)),
    {
        let at = choose|i: int| 0 <= i < self.organizations.len() && self.organizations[i] == o;
        assert(has_key(self.users, self.organizations[at].user_id));
        lemma_filter_find(self.users, pred, o.user_id);
    }

    /// The organization of a stored workspace is stored, and is left by a
    /// filter exactly if it passes.
    proof fn lemma_workspace_kept(
        self,
        w: workspace::Model,
        pred: spec_fn(organization::Model) -> bool,
    )
        requires
            self.wf(),
            self.workspaces.contains(w),
        ensures
            find(self.organizations, w.organization_id) matches Some(o) && o.id == w.organization_id
                && self.organizations.contains(o) && (has_key(
                self.organizations.filter(pred),
                w.organization_id,
            ) <==> pred(o)),
    {
        let at = choose|i: int| 0 <= i < self.workspaces.len() && self.workspaces[i] == w;
        assert(has_key(self.organizations, self.workspaces[at].organization_id));
        lemma_filter_find(self.organizations, pred, w.organization_id);
    }

    /// The workspace of a stored group is stored, and is left by a filter
    /// exactly if it passes.
    proof fn lemma_group_kept(self, g: groups::Model, pred: spec_fn(workspace::Model) -> bool)
        requires
            self.wf(),
            self.groups.contains(g),
        ensures
            find(self.workspaces, g.workspace_id) matches Some(w) && w.id == g.workspace_id
                && self.workspaces.contains(w) && (has_key(
                self.workspaces.filter(pred),
                g.workspace_id,
            ) <==> pred(w)),
    {
        let at = choose|i: int| 0 <= i < self.groups.len() && self.groups[i] == g;
        assert(has_key(self.workspaces, self.groups[at].workspace_id));
        lemma_filter_find(self.workspaces, pred, g.workspace_id);
    }

    /// The group that a stored bookmark names is stored, and is left by a
    /// filter exactly if it passes.
    proof fn lemma_bookmark_kept(self, b: bookmark::Model, pred: spec_fn(groups::Model) -> bool)
        requires
            self.wf(),
            self.bookmarks.contains(b),
            b.group_id is Some,
        ensures
            find(self.groups, b.group_id->0) matches Some(g) && g.id == b.group_id->0
                && self.groups.contains(g) && (has_key(self.groups.filter(pred), b.group_id->0)
                <==> pred(g)),
    {
        let at = choose|i: int| 0 <= i < self.bookmarks.len() && self.bookmarks[i] == b;
        assert(owner_in(self.bookmarks[at], self.groups));
        lemma_filter_find(self.groups, pred, b.group_id->0);
    }
}

impl State {
    /// After a delete no user has the key that was deleted.
    pub proof fn lemma_delete_user_gone(self, id: i32)
        ensures
            find(self.delete_user(id).users, id) is None,
    {
        lemma_filter_has_key(self.users, key_is_not::<user::Model>(id), id);
    }

    /// Deleting a user that is not stored changes nothing.
    pub proof fn lemma_delete_absent_user(self, id: i32)
        requires
            self.wf(),
            find(self.users, id) is None,
        ensures
            self.delete_user(id) == self,
    {
        lemma_filter_all(self.users, key_is_not::<user::Model>(id));
        lemma_filter_all(
            self.organizations,
            owner_among::<organization::Model, user::Model>(self.users),
        );
        lemma_filter_all(
            self.workspaces,
            owner_among::<workspace::Model, organization::Model>(self.organizations),
        );
        lemma_filter_all(
            self.groups,
            owner_among::<groups::Model, workspace::Model>(self.workspaces),
        );
        lemma_filter_all(
            self.bookmarks,
            owner_among::<bookmark::Model, groups::Model>(self.groups),
        );
    }

    /// Deleting the same user a second time changes nothing.
    pub proof fn lemma_delete_user_twice(self, id: i32)
        requires
            self.wf(),
        ensures
            self.delete_user(id).delete_user(id) == self.delete_user(id),
    {
        self.lemma_delete_user_wf(id);
        self.lemma_delete_user_gone(id);
        self.delete_user(id).lemma_delete_absent_user(id);
    }

    /// After a delete no organization has the key that was deleted.
    pub proof fn lemma_delete_organization_gone(self, id: i32)
        ensures
            find(self.delete_organization(id).organizations, id) is None,
    {
        lemma_filter_has_key(self.organizations, key_is_not::<organization::Model>(id), id);
    }

    /// Deleting an organization that is not stored changes nothing.
    pub proof fn lemma_delete_absent_organization(self, id: i32)
        requires
            self.wf(),
            find(self.organizations, id) is None,
        ensures
            self.delete_organization(id) == self,
    {
        lemma_filter_all(self.organizations, key_is_not::<organization::Model>(id));
        lemma_filter_all(
            self.workspaces,
            owner_among::<workspace::Model, organization::Model>(self.organizations),
        );
        lemma_filter_all(
            self.groups,
            owner_among::<groups::Model, workspace::Model>(self.workspaces),
        );
        lemma_filter_all(
            self.bookmarks,
            owner_among::<bookmark::Model, groups::Model>(self.groups),
        );
    }

    /// Deleting the same organization a second time changes nothing.
    pub proof fn lemma_delete_organization_twice(self, id: i32)
        requires
            self.wf(),
        ensures
            self.delete_organization(id).delete_organization(id) == self.delete_organization(id),
    {
        self.lemma_delete_organization_wf(id);
        self.lemma_delete_organization_gone(id);
        self.delete_organization(id).lemma_delete_absent_organization(id);
    }

    /// After a delete no workspace has the key that was deleted.
    pub proof fn lemma_delete_workspace_gone(self, id: i32)
        ensures
            find(self.delete_workspace(id).workspaces, id) is None,
    {
        lemma_filter_has_key(self.workspaces, key_is_not::<workspace::Model>(id), id);
    }

    /// Deleting a workspace that is not stored changes nothing.
    pub proof fn lemma_delete_absent_workspace(self, id: i32)
        requires
            self.wf(),
            find(self.workspaces, id) is None,
        ensures
            self.delete_workspace(id) == self,
    {
        lemma_filter_all(self.workspaces, key_is_not::<workspace::Model>(id));
        lemma_filter_all(
            self.groups,
            owner_among::<groups::Model, workspace::Model>(self.workspaces),
        );
        lemma_filter_all(
            self.bookmarks,
            owner_among::<bookmark::Model, groups::Model>(self.groups),
        );
    }

    /// Deleting the same workspace a second time changes nothing.
    pub proof fn lemma_delete_workspace_twice(self, id: i32)
        requires
            self.wf(),
        ensures
            self.delete_workspace(id).delete_workspace(id) == self.delete_workspace(id),
    {
        self.lemma_delete_workspace_wf(id);
        self.lemma_delete_workspace_gone(id);
        self.delete_workspace(id).lemma_delete_absent_workspace(id);
    }

    /// After a delete no group has the key that was deleted.
    pub proof fn lemma_delete_group_gone(self, id: i32)
        ensures
            find(self.delete_group(id).groups, id) is None,
    {
        lemma_filter_has_key(self.groups, key_is_not::<groups::Model>(id), id);
    }

    /// Deleting a group that is not stored changes nothing.
    pub proof fn lemma_delete_absent_group(self, id: i32)
        requires
            self.wf(),
            find(self.groups, id) is None,
        ensures
            self.delete_group(id) == self,
    {
        lemma_filter_all(self.groups, key_is_not::<groups::Model>(id));
        lemma_filter_all(
            self.bookmarks,
            owner_among::<bookmark::Model, groups::Model>(self.groups),
        );
    }

    /// Deleting the same group a second time changes nothing.
    pub proof fn lemma_delete_group_twice(self, id: i32)
        requires
            self.wf(),
        ensures
            self.delete_group(id).delete_group(id) == self.delete_group(id),
    {
        self.lemma_delete_group_wf(id);
        self.lemma_delete_group_gone(id);
        self.delete_group(id).lemma_delete_absent_group(id);
    }

    /// After a delete no bookmark has the key that was deleted.
    pub proof fn lemma_delete_bookmark_gone(self, id: i32)
        ensures
            find(self.delete_bookmark(id).bookmarks, id) is None,
    {
        lemma_filter_has_key(self.bookmarks, key_is_not::<bookmark::Model>(id), id);
    }

    /// Deleting a bookmark that is not stored changes nothing.
    pub proof fn lemma_delete_absent_bookmark(self, id: i32)
        requires
            self.wf(),
            find(self.bookmarks, id) is None,
        ensures
            self.delete_bookmark(id) == self,
    {
        lemma_filter_all(self.bookmarks, key_is_not::<bookmark::Model>(id));
    }

    /// Deleting the same bookmark a second time changes nothing.
    pub proof fn lemma_delete_bookmark_twice(self, id: i32)
        requires
            self.wf(),
        ensures
            self.delete_bookmark(id).delete_bookmark(id) == self.delete_bookmark(id),
    {
        self.lemma_delete_bookmark_wf(id);
        self.lemma_delete_bookmark_gone(id);
        self.delete_bookmark(id).lemma_delete_absent_bookmark(id);
    }

    /// The groups that belong to a workspace within an organization are the
    /// stored groups of that workspace, if the workspace is of that
    /// organization, and none if it is of another or not stored.
    pub proof fn lemma_belonged_groups(self, workspace_id: i32, organization_id: i32)
        requires
            self.wf(),
        ensures
            forall|g: groups::Model| #[trigger]
                self.belonged_groups(workspace_id, organization_id).contains(g)
                    <==> self.groups.contains(g) && g.workspace_id == workspace_id
                    && self.organization_above_workspace(workspace_id) == Some(organization_id),
            self.organization_above_workspace(workspace_id) != Some(organization_id)
                ==> self.belonged_groups(workspace_id, organization_id).len() == 0,
    {
        let picks = belongs(self.workspaces, workspace_id, organization_id);
        let found = self.belonged_groups(workspace_id, organization_id);
        lemma_filter_contains(self.groups, picks);
        assert forall|g: groups::Model| #[trigger]
            found.contains(g) <==> self.groups.contains(g) && g.workspace_id == workspace_id
                && self.organization_above_workspace(workspace_id) == Some(organization_id) by {
            if g.workspace_id == workspace_id {
                if picks(g) {
                    let at = choose|at: int|
                        0 <= at < self.workspaces.len() && (#[trigger] self.workspaces[at]).id
                            == workspace_id && self.workspaces[at].organization_id
                            == organization_id;
                    lemma_find_at(self.workspaces, at);
                }
                if self.organization_above_workspace(workspace_id) == Some(organization_id) {
                    lemma_filter_find(
                        self.workspaces,
                        key_is_not::<workspace::Model>(0),
                        workspace_id,
                    );
                    let w = find(self.workspaces, workspace_id)->0;
                    let at = choose|at: int|
                        0 <= at < self.workspaces.len() && self.workspaces[at] == w;
                    assert(self.workspaces[at].id == workspace_id);
                }
            }
        }
        if self.organization_above_workspace(workspace_id) != Some(organization_id) {
            if found.len() > 0 {
                assert(found.contains(found[0]));
            }
        }
    }
}

} // verus!
