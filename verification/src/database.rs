//! The store: five tables that keep their keys unique and their foreign keys
//! intact, and cascade every delete.

use vstd::prelude::*;

use crate::database::state::{belongs, State};
use crate::entity::bookmark::mentioning;
use crate::entity::{bookmark, groups, organization, user, workspace, ActiveValue, Entity};
use crate::error::DbError;
use crate::table::{
    contains_key, copy_rows, fetch, find, has_key, keep_owned, lemma_filter_step, lemma_find_at,
    owned_by, remove_key, replace_row, select_owned,
};

pub mod cascade;
pub mod state;

verus! {

/// The store. Its tables can be read and changed only through the operations
/// below, each of which leaves it well formed.
pub struct Database {
    users: Vec<user::Model>,
    organizations: Vec<organization::Model>,
    workspaces: Vec<workspace::Model>,
    groups: Vec<groups::Model>,
    bookmarks: Vec<bookmark::Model>,
    next_user: i32,
    next_organization: i32,
    next_workspace: i32,
    next_group: i32,
    next_bookmark: i32,
}

impl View for Database {
    type V = State;

    closed spec fn view(&self) -> State {
        State {
            users: self.users@,
            organizations: self.organizations@,
            workspaces: self.workspaces@,
            groups: self.groups@,
            bookmarks: self.bookmarks@,
            next_user: self.next_user,
            next_organization: self.next_organization,
            next_workspace: self.next_workspace,
            next_group: self.next_group,
            next_bookmark: self.next_bookmark,
        }
    }
}

impl Database {
    #[verifier::type_invariant]
    pub open spec fn well_formed(self) -> bool {
        self@.wf()
    }

    /// An empty store, whose first keys are 1.
    pub fn new() -> (db: Database)
        ensures
            db@ == State::empty(),
    {
        Database {
            users: Vec::new(),
            organizations: Vec::new(),
            workspaces: Vec::new(),
            groups: Vec::new(),
            bookmarks: Vec::new(),
            next_user: 1,
            next_organization: 1,
            next_workspace: 1,
            next_group: 1,
            next_bookmark: 1,
        }
    }

    /// Hands the store out and leaves an empty one behind.
    fn take(&mut self) -> (taken: Database)
        ensures
            taken@ == old(self)@,
            final(self)@ == State::empty(),
    {
        let mut taken = Database::new();
        std::mem::swap(self, &mut taken);
        taken
    }

    /// Inserts a user under the next key and returns that key.
    pub fn insert_user(&mut self, input: user::ActiveModel) -> (r: Result<i32, DbError>)
        ensures
            final(self)@ == old(self)@.insert_user(input),
            r == match old(self)@.user_to_insert(input) {
                Ok(row) => Ok::<i32, DbError>(row.id),
                Err(e) => Err(e),
            },
    {
        proof {
            use_type_invariant(&*self);
            old(self)@.lemma_insert_user_wf(input);
        }
        if !input.id.is_not_set() {
            return Err(DbError::PrimaryKeyStaged(Entity::User));
        }
        if !input.is_complete() {
            return Err(DbError::AttrNotSet(Entity::User));
        }
        if self.next_user == i32::MAX {
            return Err(DbError::KeysExhausted(Entity::User));
        }
        let id = self.next_user;
        let row = input.into_row(id);
        let Database {
            mut users, organizations, workspaces, groups, bookmarks, next_user: _,
            next_organization, next_workspace, next_group, next_bookmark,
        } = self.take();
        users.push(row);
        *self = Database {
            users, organizations, workspaces, groups, bookmarks, next_user: id + 1,
            next_organization, next_workspace, next_group, next_bookmark,
        };
        Ok(id)
    }

    /// The user with the key `id`.
    pub fn find_user_by_id(&self, id: i32) -> (r: Option<user::Model>)
        ensures
            r == find(self@.users, id),
    {
        proof {
            use_type_invariant(self);
        }
        fetch(&self.users, id)
    }

    /// Every user, in the order of the inserts.
    pub fn all_users(&self) -> (r: Vec<user::Model>)
        ensures
            r@ == self@.users,
    {
        copy_rows(&self.users)
    }

    /// Writes the changed columns of `input` to the user that has its key, and
    /// returns the row as it is stored then.
    pub fn update_user(&mut self, input: user::ActiveModel) -> (r: Result<user::Model, DbError>)
        ensures
            final(self)@ == old(self)@.update_user(input),
            r == old(self)@.user_to_update(input),
    {
        proof {
            use_type_invariant(&*self);
            old(self)@.lemma_update_user_wf(input);
        }
        let key = match &input.id {
            ActiveValue::Changed(key) => *key,
            ActiveValue::Unchanged(key) => *key,
            ActiveValue::NotSet => {
                return Err(DbError::UpdateGetPrimaryKey(Entity::User));
            },
        };
        let stored = match fetch(&self.users, key) {
            Some(row) => row,
            None => {
                return Err(DbError::RecordNotFound(Entity::User));
            },
        };
        let row = input.write_over(stored);
        let written = row.clone();
        let Database {
            users, organizations, workspaces, groups, bookmarks, next_user, next_organization,
            next_workspace, next_group, next_bookmark,
        } = self.take();
        let users = replace_row(users, row);
        *self = Database {
            users, organizations, workspaces, groups, bookmarks, next_user, next_organization,
            next_workspace, next_group, next_bookmark,
        };
        Ok(written)
    }

    /// Deletes the user with the key `id` and every row that hangs on it. Says
    /// whether there was such a user.
    pub fn delete_user(&mut self, id: i32) -> (removed: bool)
        ensures
            final(self)@ == old(self)@.delete_user(id),
            removed == has_key(old(self)@.users, id),
    {
        proof {
            use_type_invariant(&*self);
            old(self)@.lemma_delete_user_wf(id);
        }
        let removed = contains_key(&self.users, id);
        let users = remove_key(&self.users, id);
        let organizations = keep_owned(&self.organizations, &users);
        let workspaces = keep_owned(&self.workspaces, &organizations);
        let groups = keep_owned(&self.groups, &workspaces);
        let bookmarks = keep_owned(&self.bookmarks, &groups);
        let Database {
            next_user, next_organization, next_workspace, next_group, next_bookmark, ..
        } = self.take();
        *self = Database {
            users, organizations, workspaces, groups, bookmarks, next_user, next_organization,
            next_workspace, next_group, next_bookmark,
        };
        removed
    }

    /// Inserts an organization under the next key and returns that key.
    pub fn insert_organization(
        &mut self,
        input: organization::ActiveModel,
    ) -> (r: Result<i32, DbError>)
        ensures
            final(self)@ == old(self)@.insert_organization(input),
            r == match old(self)@.organization_to_insert(input) {
                Ok(row) => Ok::<i32, DbError>(row.id),
                Err(e) => Err(e),
            },
    {
        proof {
            use_type_invariant(&*self);
            old(self)@.lemma_insert_organization_wf(input);
        }
        if !input.id.is_not_set() {
            return Err(DbError::PrimaryKeyStaged(Entity::Organization));
        }
        if !input.is_complete() {
            return Err(DbError::AttrNotSet(Entity::Organization));
        }
        if self.next_organization == i32::MAX {
            return Err(DbError::KeysExhausted(Entity::Organization));
        }
        let id = self.next_organization;
        let row = input.into_row(id);
        if !contains_key(&self.users, row.user_id) {
            return Err(DbError::ForeignKeyViolation(Entity::Organization));
        }
        let Database {
            users, mut organizations, workspaces, groups, bookmarks, next_user,
            next_organization: _, next_workspace, next_group, next_bookmark,
        } = self.take();
        organizations.push(row);
        *self = Database {
            users, organizations, workspaces, groups, bookmarks, next_user,
            next_organization: id + 1, next_workspace, next_group, next_bookmark,
        };
        Ok(id)
    }

    /// The organization with the key `id`.
    pub fn find_organization_by_id(&self, id: i32) -> (r: Option<organization::Model>)
        ensures
            r == find(self@.organizations, id),
    {
        proof {
            use_type_invariant(self);
        }
        fetch(&self.organizations, id)
    }

    /// Every organization, in the order of the inserts.
    pub fn all_organizations(&self) -> (r: Vec<organization::Model>)
        ensures
            r@ == self@.organizations,
    {
        copy_rows(&self.organizations)
    }

    /// Writes the changed columns of `input` to the organization that has its key, and
    /// returns the row as it is stored then.
    pub fn update_organization(
        &mut self,
        input: organization::ActiveModel,
    ) -> (r: Result<organization::Model, DbError>)
        ensures
            final(self)@ == old(self)@.update_organization(input),
            r == old(self)@.organization_to_update(input),
    {
        proof {
            use_type_invariant(&*self);
            old(self)@.lemma_update_organization_wf(input);
        }
        let key = match &input.id {
            ActiveValue::Changed(key) => *key,
            ActiveValue::Unchanged(key) => *key,
            ActiveValue::NotSet => {
                return Err(DbError::UpdateGetPrimaryKey(Entity::Organization));
            },
        };
        let stored = match fetch(&self.organizations, key) {
            Some(row) => row,
            None => {
                return Err(DbError::RecordNotFound(Entity::Organization));
            },
        };
        let row = input.write_over(stored);
        if !contains_key(&self.users, row.user_id) {
            return Err(DbError::ForeignKeyViolation(Entity::Organization));
        }
        let written = row.clone();
        let Database {
            users, organizations, workspaces, groups, bookmarks, next_user, next_organization,
            next_workspace, next_group, next_bookmark,
        } = self.take();
        let organizations = replace_row(organizations, row);
        *self = Database {
            users, organizations, workspaces, groups, bookmarks, next_user, next_organization,
            next_workspace, next_group, next_bookmark,
        };
        Ok(written)
    }

    /// Deletes the organization with the key `id` and every row that hangs on it. Says
    /// whether there was such an organization.
    pub fn delete_organization(&mut self, id: i32) -> (removed: bool)
        ensures
            final(self)@ == old(self)@.delete_organization(id),
            removed == has_key(old(self)@.organizations, id),
    {
        proof {
            use_type_invariant(&*self);
            old(self)@.lemma_delete_organization_wf(id);
        }
        let removed = contains_key(&self.organizations, id);
        let organizations = remove_key(&self.organizations, id);
        let workspaces = keep_owned(&self.workspaces, &organizations);
        let groups = keep_owned(&self.groups, &workspaces);
        let bookmarks = keep_owned(&self.bookmarks, &groups);
        let Database {
            users, next_user, next_organization, next_workspace, next_group, next_bookmark, ..
        } = self.take();
        *self = Database {
            users, organizations, workspaces, groups, bookmarks, next_user, next_organization,
            next_workspace, next_group, next_bookmark,
        };
        removed
    }

    /// The organizations of the user with the key `user_id`.
    pub fn organizations_of_user(&self, user_id: i32) -> (r: Vec<organization::Model>)
        ensures
            r@ == owned_by(self@.organizations, user_id),
    {
        select_owned(&self.organizations, user_id)
    }

    /// Inserts a workspace under the next key and returns that key.
    pub fn insert_workspace(&mut self, input: workspace::ActiveModel) -> (r: Result<i32, DbError>)
        ensures
            final(self)@ == old(self)@.insert_workspace(input),
            r == match old(self)@.workspace_to_insert(input) {
                Ok(row) => Ok::<i32, DbError>(row.id),
                Err(e) => Err(e),
            },
    {
        proof {
            use_type_invariant(&*self);
            old(self)@.lemma_insert_workspace_wf(input);
        }
        if !input.id.is_not_set() {
            return Err(DbError::PrimaryKeyStaged(Entity::Workspace));
        }
        if !input.is_complete() {
            return Err(DbError::AttrNotSet(Entity::Workspace));
        }
        if self.next_workspace == i32::MAX {
            return Err(DbError::KeysExhausted(Entity::Workspace));
        }
        let id = self.next_workspace;
        let row = input.into_row(id);
        if !contains_key(&self.organizations, row.organization_id) {
            return Err(DbError::ForeignKeyViolation(Entity::Workspace));
        }
        let Database {
            users, organizations, mut workspaces, groups, bookmarks, next_user, next_organization,
            next_workspace: _, next_group, next_bookmark,
        } = self.take();
        workspaces.push(row);
        *self = Database {
            users, organizations, workspaces, groups, bookmarks, next_user, next_organization,
            next_workspace: id + 1, next_group, next_bookmark,
        };
        Ok(id)
    }

    /// The workspace with the key `id`.
    pub fn find_workspace_by_id(&self, id: i32) -> (r: Option<workspace::Model>)
        ensures
            r == find(self@.workspaces, id),
    {
        proof {
            use_type_invariant(self);
        }
        fetch(&self.workspaces, id)
    }

    /// Every workspace, in the order of the inserts.
    pub fn all_workspaces(&self) -> (r: Vec<workspace::Model>)
        ensures
            r@ == self@.workspaces,
    {
        copy_rows(&self.workspaces)
    }

    /// Writes the changed columns of `input` to the workspace that has its key, and
    /// returns the row as it is stored then.
    pub fn update_workspace(
        &mut self,
        input: workspace::ActiveModel,
    ) -> (r: Result<workspace::Model, DbError>)
        ensures
            final(self)@ == old(self)@.update_workspace(input),
            r == old(self)@.workspace_to_update(input),
    {
        proof {
            use_type_invariant(&*self);
            old(self)@.lemma_update_workspace_wf(input);
        }
        let key = match &input.id {
            ActiveValue::Changed(key) => *key,
            ActiveValue::Unchanged(key) => *key,
            ActiveValue::NotSet => {
                return Err(DbError::UpdateGetPrimaryKey(Entity::Workspace));
            },
        };
        let stored = match fetch(&self.workspaces, key) {
            Some(row) => row,
            None => {
                return Err(DbError::RecordNotFound(Entity::Workspace));
            },
        };
        let row = input.write_over(stored);
        if !contains_key(&self.organizations, row.organization_id) {
            return Err(DbError::ForeignKeyViolation(Entity::Workspace));
        }
        let written = row.clone();
        let Database {
            users, organizations, workspaces, groups, bookmarks, next_user, next_organization,
            next_workspace, next_group, next_bookmark,
        } = self.take();
        let workspaces = replace_row(workspaces, row);
        *self = Database {
            users, organizations, workspaces, groups, bookmarks, next_user, next_organization,
            next_workspace, next_group, next_bookmark,
        };
        Ok(written)
    }

    /// Deletes the workspace with the key `id` and every row that hangs on it. Says
    /// whether there was such a workspace.
    pub fn delete_workspace(&mut self, id: i32) -> (removed: bool)
        ensures
            final(self)@ == old(self)@.delete_workspace(id),
            removed == has_key(old(self)@.workspaces, id),
    {
        proof {
            use_type_invariant(&*self);
            old(self)@.lemma_delete_workspace_wf(id);
        }
        let removed = contains_key(&self.workspaces, id);
        let workspaces = remove_key(&self.workspaces, id);
        let groups = keep_owned(&self.groups, &workspaces);
        let bookmarks = keep_owned(&self.bookmarks, &groups);
        let Database {
            users, organizations, next_user, next_organization, next_workspace, next_group,
            next_bookmark, ..
        } = self.take();
        *self = Database {
            users, organizations, workspaces, groups, bookmarks, next_user, next_organization,
            next_workspace, next_group, next_bookmark,
        };
        removed
    }

    /// The workspaces of the organization with the key `organization_id`.
    pub fn workspaces_of_organization(&self, organization_id: i32) -> (r: Vec<workspace::Model>)
        ensures
            r@ == owned_by(self@.workspaces, organization_id),
    {
        select_owned(&self.workspaces, organization_id)
    }

    /// Inserts a group under the next key and returns that key.
    pub fn insert_group(&mut self, input: groups::ActiveModel) -> (r: Result<i32, DbError>)
        ensures
            final(self)@ == old(self)@.insert_group(input),
            r == match old(self)@.group_to_insert(input) {
                Ok(row) => Ok::<i32, DbError>(row.id),
                Err(e) => Err(e),
            },
    {
        proof {
            use_type_invariant(&*self);
            old(self)@.lemma_insert_group_wf(input);
        }
        if !input.id.is_not_set() {
            return Err(DbError::PrimaryKeyStaged(Entity::Group));
        }
        if !input.is_complete() {
            return Err(DbError::AttrNotSet(Entity::Group));
        }
        if self.next_group == i32::MAX {
            return Err(DbError::KeysExhausted(Entity::Group));
        }
        let id = self.next_group;
        let row = input.into_row(id);
        if !contains_key(&self.workspaces, row.workspace_id) {
            return Err(DbError::ForeignKeyViolation(Entity::Group));
        }
        let Database {
            users, organizations, workspaces, mut groups, bookmarks, next_user, next_organization,
            next_workspace, next_group: _, next_bookmark,
        } = self.take();
        groups.push(row);
        *self = Database {
            users, organizations, workspaces, groups, bookmarks, next_user, next_organization,
            next_workspace, next_group: id + 1, next_bookmark,
        };
        Ok(id)
    }

    /// The group with the key `id`.
    pub fn find_group_by_id(&self, id: i32) -> (r: Option<groups::Model>)
        ensures
            r == find(self@.groups, id),
    {
        proof {
            use_type_invariant(self);
        }
        fetch(&self.groups, id)
    }

    /// Every group, in the order of the inserts.
    pub fn all_groups(&self) -> (r: Vec<groups::Model>)
        ensures
            r@ == self@.groups,
    {
        copy_rows(&self.groups)
    }

    /// Writes the changed columns of `input` to the group that has its key, and
    /// returns the row as it is stored then.
    pub fn update_group(
        &mut self,
        input: groups::ActiveModel,
    ) -> (r: Result<groups::Model, DbError>)
        ensures
            final(self)@ == old(self)@.update_group(input),
            r == old(self)@.group_to_update(input),
    {
        proof {
            use_type_invariant(&*self);
            old(self)@.lemma_update_group_wf(input);
        }
        let key = match &input.id {
            ActiveValue::Changed(key) => *key,
            ActiveValue::Unchanged(key) => *key,
            ActiveValue::NotSet => {
                return Err(DbError::UpdateGetPrimaryKey(Entity::Group));
            },
        };
        let stored = match fetch(&self.groups, key) {
            Some(row) => row,
            None => {
                return Err(DbError::RecordNotFound(Entity::Group));
            },
        };
        let row = input.write_over(stored);
        if !contains_key(&self.workspaces, row.workspace_id) {
            return Err(DbError::ForeignKeyViolation(Entity::Group));
        }
        let written = row.clone();
        let Database {
            users, organizations, workspaces, groups, bookmarks, next_user, next_organization,
            next_workspace, next_group, next_bookmark,
        } = self.take();
        let groups = replace_row(groups, row);
        *self = Database {
            users, organizations, workspaces, groups, bookmarks, next_user, next_organization,
            next_workspace, next_group, next_bookmark,
        };
        Ok(written)
    }

    /// Deletes the group with the key `id` and every row that hangs on it. Says
    /// whether there was such a group.
    pub fn delete_group(&mut self, id: i32) -> (removed: bool)
        ensures
            final(self)@ == old(self)@.delete_group(id),
            removed == has_key(old(self)@.groups, id),
    {
        proof {
            use_type_invariant(&*self);
            old(self)@.lemma_delete_group_wf(id);
        }
        let removed = contains_key(&self.groups, id);
        let groups = remove_key(&self.groups, id);
        let bookmarks = keep_owned(&self.bookmarks, &groups);
        let Database {
            users, organizations, workspaces, next_user, next_organization, next_workspace,
            next_group, next_bookmark, ..
        } = self.take();
        *self = Database {
            users, organizations, workspaces, groups, bookmarks, next_user, next_organization,
            next_workspace, next_group, next_bookmark,
        };
        removed
    }

    /// The groups of the workspace with the key `workspace_id`.
    pub fn groups_of_workspace(&self, workspace_id: i32) -> (r: Vec<groups::Model>)
        ensures
            r@ == owned_by(self@.groups, workspace_id),
    {
        select_owned(&self.groups, workspace_id)
    }

    /// Inserts a bookmark under the next key and returns that key.
    pub fn insert_bookmark(&mut self, input: bookmark::ActiveModel) -> (r: Result<i32, DbError>)
        ensures
            final(self)@ == old(self)@.insert_bookmark(input),
            r == match old(self)@.bookmark_to_insert(input) {
                Ok(row) => Ok::<i32, DbError>(row.id),
                Err(e) => Err(e),
            },
    {
        proof {
            use_type_invariant(&*self);
            old(self)@.lemma_insert_bookmark_wf(input);
        }
        if !input.id.is_not_set() {
            return Err(DbError::PrimaryKeyStaged(Entity::Bookmark));
        }
        if !input.is_complete() {
            return Err(DbError::AttrNotSet(Entity::Bookmark));
        }
        if self.next_bookmark == i32::MAX {
            return Err(DbError::KeysExhausted(Entity::Bookmark));
        }
        let id = self.next_bookmark;
        let row = input.into_row(id);
        let orphan = match row.group_id {
            Some(group) => !contains_key(&self.groups, group),
            None => false,
        };
        if orphan {
            return Err(DbError::ForeignKeyViolation(Entity::Bookmark));
        }
        let Database {
            users, organizations, workspaces, groups, mut bookmarks, next_user, next_organization,
            next_workspace, next_group, next_bookmark: _,
        } = self.take();
        bookmarks.push(row);
        *self = Database {
            users, organizations, workspaces, groups, bookmarks, next_user, next_organization,
            next_workspace, next_group, next_bookmark: id + 1,
        };
        Ok(id)
    }

    /// The bookmark with the key `id`.
    pub fn find_bookmark_by_id(&self, id: i32) -> (r: Option<bookmark::Model>)
        ensures
            r == find(self@.bookmarks, id),
    {
        proof {
            use_type_invariant(self);
        }
        fetch(&self.bookmarks, id)
    }

    /// Every bookmark, in the order of the inserts.
    pub fn all_bookmarks(&self) -> (r: Vec<bookmark::Model>)
        ensures
            r@ == self@.bookmarks,
    {
        copy_rows(&self.bookmarks)
    }

    /// Writes the changed columns of `input` to the bookmark that has its key, and
    /// returns the row as it is stored then.
    pub fn update_bookmark(
        &mut self,
        input: bookmark::ActiveModel,
    ) -> (r: Result<bookmark::Model, DbError>)
        ensures
            final(self)@ == old(self)@.update_bookmark(input),
            r == old(self)@.bookmark_to_update(input),
    {
        proof {
            use_type_invariant(&*self);
            old(self)@.lemma_update_bookmark_wf(input);
        }
        let key = match &input.id {
            ActiveValue::Changed(key) => *key,
            ActiveValue::Unchanged(key) => *key,
            ActiveValue::NotSet => {
                return Err(DbError::UpdateGetPrimaryKey(Entity::Bookmark));
            },
        };
        let stored = match fetch(&self.bookmarks, key) {
            Some(row) => row,
            None => {
                return Err(DbError::RecordNotFound(Entity::Bookmark));
            },
        };
        let row = input.write_over(stored);
        let orphan = match row.group_id {
            Some(group) => !contains_key(&self.groups, group),
            None => false,
        };
        if orphan {
            return Err(DbError::ForeignKeyViolation(Entity::Bookmark));
        }
        let written = row.clone();
        let Database {
            users, organizations, workspaces, groups, bookmarks, next_user, next_organization,
            next_workspace, next_group, next_bookmark,
        } = self.take();
        let bookmarks = replace_row(bookmarks, row);
        *self = Database {
            users, organizations, workspaces, groups, bookmarks, next_user, next_organization,
            next_workspace, next_group, next_bookmark,
        };
        Ok(written)
    }

    /// Deletes the bookmark with the key `id`. Says whether there was such a bookmark.
    pub fn delete_bookmark(&mut self, id: i32) -> (removed: bool)
        ensures
            final(self)@ == old(self)@.delete_bookmark(id),
            removed == has_key(old(self)@.bookmarks, id),
    {
        proof {
            use_type_invariant(&*self);
            old(self)@.lemma_delete_bookmark_wf(id);
        }
        let removed = contains_key(&self.bookmarks, id);
        let bookmarks = remove_key(&self.bookmarks, id);
        let Database {
            users, organizations, workspaces, groups, next_user, next_organization, next_workspace,
            next_group, next_bookmark, ..
        } = self.take();
        *self = Database {
            users, organizations, workspaces, groups, bookmarks, next_user, next_organization,
            next_workspace, next_group, next_bookmark,
        };
        removed
    }

    /// The bookmarks of the group with the key `group_id`.
    pub fn bookmarks_of_group(&self, group_id: i32) -> (r: Vec<bookmark::Model>)
        ensures
            r@ == owned_by(self@.bookmarks, group_id),
    {
        select_owned(&self.bookmarks, group_id)
    }

    /// The groups of the workspace `workspace_id`, as far as that workspace
    /// belongs to the organization `organization_id`.
    pub fn belonged_groups(
        &self,
        workspace_id: i32,
        organization_id: i32,
    ) -> (r: Vec<groups::Model>)
        ensures
            r@ == self@.belonged_groups(workspace_id, organization_id),
    {
        proof {
            use_type_invariant(self);
        }
        let in_organization = match fetch(&self.workspaces, workspace_id) {
            Some(workspace) => workspace.organization_id == organization_id,
            None => false,
        };
        let ghost picks = belongs(self.workspaces@, workspace_id, organization_id);
        let mut out: Vec<groups::Model> = Vec::new();
        let mut i: usize = 0;
        assert(self.groups@.take(0).filter(picks) == Seq::<groups::Model>::empty()) by {
            reveal(Seq::filter);
        }
        while i < self.groups.len()
            invariant
                i <= self.groups@.len(),
                self@.wf(),
                picks == belongs(self.workspaces@, workspace_id, organization_id),
                in_organization == match find(self.workspaces@, workspace_id) {
                    Some(workspace) => workspace.organization_id == organization_id,
                    None => false,
                },
                out@ == self.groups@.take(i as int).filter(picks),
            decreases self.groups@.len() - i,
        {
            let group = &self.groups[i];
            proof {
                lemma_filter_step(self.groups@, picks, i as int);
                if group.workspace_id == workspace_id {
                    if picks(*group) {
                        let at = choose|at: int|
                            0 <= at < self.workspaces@.len() && (#[trigger] self.workspaces@[at]).id
                                == workspace_id && self.workspaces@[at].organization_id
                                == organization_id;
                        lemma_find_at(self.workspaces@, at);
                    }
                }
            }
            if group.workspace_id == workspace_id && in_organization {
                out.push(group.clone());
            }
            i += 1;
        }
        assert(self.groups@.take(self.groups@.len() as int) == self.groups@);
        out
    }

    /// The bookmarks that mention one of the keywords in their name or tags.
    pub fn bookmarks_mentioning(&self, keywords: &Vec<String>) -> (r: Vec<bookmark::Model>)
        ensures
            r@ == self@.bookmarks.filter(mentioning(keywords.deep_view())),
    {
        let ghost picks = mentioning(keywords.deep_view());
        let mut out: Vec<bookmark::Model> = Vec::new();
        let mut i: usize = 0;
        assert(self.bookmarks@.take(0).filter(picks) == Seq::<bookmark::Model>::empty()) by {
            reveal(Seq::filter);
        }
        while i < self.bookmarks.len()
            invariant
                i <= self.bookmarks@.len(),
                picks == mentioning(keywords.deep_view()),
                out@ == self.bookmarks@.take(i as int).filter(picks),
            decreases self.bookmarks@.len() - i,
        {
            proof {
                lemma_filter_step(self.bookmarks@, picks, i as int);
            }
            if self.bookmarks[i].has_any_keyword(keywords) {
                out.push(self.bookmarks[i].clone());
            }
            i += 1;
        }
        assert(self.bookmarks@.take(self.bookmarks@.len() as int) == self.bookmarks@);
        out
    }
}

} // verus!
