//! The store as a mathematical value: five tables and, for each, the key that
//! comes next. Every operation of the store is a function on such values.

use vstd::prelude::*;

use crate::entity::{bookmark, groups, organization, user, workspace, Entity};
use crate::error::DbError;
use crate::table::{
    find, has_key, key_is_not, keyed, lemma_filter_keyed, lemma_filter_owners, lemma_find_at,
    lemma_push_child, lemma_push_keyed, lemma_push_parent, lemma_replaced_child,
    lemma_replaced_find, lemma_replaced_keyed, lemma_replaced_parent, lemma_with_owner_in,
    owner_among, owners_in, replaced, with_owner_in, without_key,
};

verus! {

/// The groups of the workspace `workspace_id` whose workspace belongs to the
/// organization `organization_id`: groups joined with their workspaces.
pub open spec fn belongs(
    workspaces: Seq<workspace::Model>,
    workspace_id: i32,
    organization_id: i32,
) -> spec_fn(groups::Model) -> bool {
    |g: groups::Model|
        g.workspace_id == workspace_id && exists|i: int|
            0 <= i < workspaces.len() && (#[trigger] workspaces[i]).id == g.workspace_id
                && workspaces[i].organization_id == organization_id
}

/// What the store holds.
pub struct State {
    pub users: Seq<user::Model>,
    pub organizations: Seq<organization::Model>,
    pub workspaces: Seq<workspace::Model>,
    pub groups: Seq<groups::Model>,
    pub bookmarks: Seq<bookmark::Model>,
    pub next_user: i32,
    pub next_organization: i32,
    pub next_workspace: i32,
    pub next_group: i32,
    pub next_bookmark: i32,
}

impl State {
    /// The store before the first insert.
    pub open spec fn empty() -> State {
        State {
            users: Seq::empty(),
            organizations: Seq::empty(),
            workspaces: Seq::empty(),
            groups: Seq::empty(),
            bookmarks: Seq::empty(),
            next_user: 1,
            next_organization: 1,
            next_workspace: 1,
            next_group: 1,
            next_bookmark: 1,
        }
    }

    /// Each table is keyed, and every row but a user names a parent that is
    /// stored: no organization without its user, no workspace without its
    /// organization, no group without its workspace, no bookmark without the
    /// group that it names.
    pub open spec fn wf(self) -> bool {
        &&& keyed(self.users, self.next_user)
        &&& keyed(self.organizations, self.next_organization)
        &&& keyed(self.workspaces, self.next_workspace)
        &&& keyed(self.groups, self.next_group)
        &&& keyed(self.bookmarks, self.next_bookmark)
        &&& owners_in(self.organizations, self.users)
        &&& owners_in(self.workspaces, self.organizations)
        &&& owners_in(self.groups, self.workspaces)
        &&& owners_in(self.bookmarks, self.groups)
    }

    /// The groups of one workspace, as far as that workspace belongs to the
    /// organization that the caller names.
    pub open spec fn belonged_groups(self, workspace_id: i32, organization_id: i32) -> Seq<
        groups::Model,
    > {
        self.groups.filter(belongs(self.workspaces, workspace_id, organization_id))
    }

    /// The row that an insert of `input` adds to the users, or why the store
    /// refuses it.
    pub open spec fn user_to_insert(
        self,
        input: user::ActiveModel,
    ) -> Result<user::Model, DbError> {
        if !(input.id is NotSet) {
            Err(DbError::PrimaryKeyStaged(Entity::User))
        } else if !input.complete() {
            Err(DbError::AttrNotSet(Entity::User))
        } else if self.next_user == i32::MAX {
            Err(DbError::KeysExhausted(Entity::User))
        } else {
            Ok(input.row(self.next_user))
        }
    }

    /// The store with one more user, whose key is used up.
    pub open spec fn with_user(self, row: user::Model) -> State {
        State {
            users: self.users.push(row),
            next_user: (row.id + 1) as i32,
            ..self
        }
    }

    /// The store after an insert of `input`.
    pub open spec fn insert_user(self, input: user::ActiveModel) -> State {
        match self.user_to_insert(input) {
            Ok(row) => self.with_user(row),
            Err(_) => self,
        }
    }

    /// The row that an update with `input` leaves in the users, or why the store
    /// refuses it.
    pub open spec fn user_to_update(
        self,
        input: user::ActiveModel,
    ) -> Result<user::Model, DbError> {
        match input.id.known() {
            None => Err(DbError::UpdateGetPrimaryKey(Entity::User)),
            Some(key) => match find(self.users, key) {
                None => Err(DbError::RecordNotFound(Entity::User)),
                Some(row) => Ok(input.written_over(row)),
            },
        }
    }

    /// The store with `row` in the place of the user that has its key.
    pub open spec fn with_user_replaced(self, row: user::Model) -> State {
        State { users: replaced(self.users, row), ..self }
    }

    /// The store after an update with `input`.
    pub open spec fn update_user(self, input: user::ActiveModel) -> State {
        match self.user_to_update(input) {
            Ok(row) => self.with_user_replaced(row),
            Err(_) => self,
        }
    }

    /// The store after the user with the key `id` was deleted, and with it every
    /// row that hung on it: a row goes when its parent goes.
    pub open spec fn delete_user(self, id: i32) -> State {
        let users = without_key(self.users, id);
        let organizations = with_owner_in(self.organizations, users);
        let workspaces = with_owner_in(self.workspaces, organizations);
        let groups = with_owner_in(self.groups, workspaces);
        let bookmarks = with_owner_in(self.bookmarks, groups);
        State { users, organizations, workspaces, groups, bookmarks, ..self }
    }

    /// The row that an insert of `input` adds to the organizations, or why the store
    /// refuses it.
    pub open spec fn organization_to_insert(
        self,
        input: organization::ActiveModel,
    ) -> Result<organization::Model, DbError> {
        if !(input.id is NotSet) {
            Err(DbError::PrimaryKeyStaged(Entity::Organization))
        } else if !input.complete() {
            Err(DbError::AttrNotSet(Entity::Organization))
        } else if self.next_organization == i32::MAX {
            Err(DbError::KeysExhausted(Entity::Organization))
        } else if !has_key(self.users, input.row(self.next_organization).user_id) {
            Err(DbError::ForeignKeyViolation(Entity::Organization))
        } else {
            Ok(input.row(self.next_organization))
        }
    }

    /// The store with one more organization, whose key is used up.
    pub open spec fn with_organization(self, row: organization::Model) -> State {
        State {
            organizations: self.organizations.push(row),
            next_organization: (row.id + 1) as i32,
            ..self
        }
    }

    /// The store after an insert of `input`.
    pub open spec fn insert_organization(self, input: organization::ActiveModel) -> State {
        match self.organization_to_insert(input) {
            Ok(row) => self.with_organization(row),
            Err(_) => self,
        }
    }

    /// The row that an update with `input` leaves in the organizations, or why the store
    /// refuses it.
    pub open spec fn organization_to_update(
        self,
        input: organization::ActiveModel,
    ) -> Result<organization::Model, DbError> {
        match input.id.known() {
            None => Err(DbError::UpdateGetPrimaryKey(Entity::Organization)),
            Some(key) => match find(self.organizations, key) {
                None => Err(DbError::RecordNotFound(Entity::Organization)),
                Some(row) => {
                    let written = input.written_over(row);
                    if has_key(self.users, written.user_id) {
                        Ok(written)
                    } else {
                        Err(DbError::ForeignKeyViolation(Entity::Organization))
                    }
                },
            },
        }
    }

    /// The store with `row` in the place of the organization that has its key.
    pub open spec fn with_organization_replaced(self, row: organization::Model) -> State {
        State { organizations: replaced(self.organizations, row), ..self }
    }

    /// The store after an update with `input`.
    pub open spec fn update_organization(self, input: organization::ActiveModel) -> State {
        match self.organization_to_update(input) {
            Ok(row) => self.with_organization_replaced(row),
            Err(_) => self,
        }
    }

    /// The store after the organization with the key `id` was deleted, and with it every
    /// row that hung on it: a row goes when its parent goes.
    pub open spec fn delete_organization(self, id: i32) -> State {
        let organizations = without_key(self.organizations, id);
        let workspaces = with_owner_in(self.workspaces, organizations);
        let groups = with_owner_in(self.groups, workspaces);
        let bookmarks = with_owner_in(self.bookmarks, groups);
        State { organizations, workspaces, groups, bookmarks, ..self }
    }

    /// The row that an insert of `input` adds to the workspaces, or why the store
    /// refuses it.
    pub open spec fn workspace_to_insert(
        self,
        input: workspace::ActiveModel,
    ) -> Result<workspace::Model, DbError> {
        if !(input.id is NotSet) {
            Err(DbError::PrimaryKeyStaged(Entity::Workspace))
        } else if !input.complete() {
            Err(DbError::AttrNotSet(Entity::Workspace))
        } else if self.next_workspace == i32::MAX {
            Err(DbError::KeysExhausted(Entity::Workspace))
        } else if !has_key(self.organizations, input.row(self.next_workspace).organization_id) {
            Err(DbError::ForeignKeyViolation(Entity::Workspace))
        } else {
            Ok(input.row(self.next_workspace))
        }
    }

    /// The store with one more workspace, whose key is used up.
    pub open spec fn with_workspace(self, row: workspace::Model) -> State {
        State {
            workspaces: self.workspaces.push(row),
            next_workspace: (row.id + 1) as i32,
            ..self
        }
    }

    /// The store after an insert of `input`.
    pub open spec fn insert_workspace(self, input: workspace::ActiveModel) -> State {
        match self.workspace_to_insert(input) {
            Ok(row) => self.with_workspace(row),
            Err(_) => self,
        }
    }

    /// The row that an update with `input` leaves in the workspaces, or why the store
    /// refuses it.
    pub open spec fn workspace_to_update(
        self,
        input: workspace::ActiveModel,
    ) -> Result<workspace::Model, DbError> {
        match input.id.known() {
            None => Err(DbError::UpdateGetPrimaryKey(Entity::Workspace)),
            Some(key) => match find(self.workspaces, key) {
                None => Err(DbError::RecordNotFound(Entity::Workspace)),
                Some(row) => {
                    let written = input.written_over(row);
                    if has_key(self.organizations, written.organization_id) {
                        Ok(written)
                    } else {
                        Err(DbError::ForeignKeyViolation(Entity::Workspace))
                    }
                },
            },
        }
    }

    /// The store with `row` in the place of the workspace that has its key.
    pub open spec fn with_workspace_replaced(self, row: workspace::Model) -> State {
        State { workspaces: replaced(self.workspaces, row), ..self }
    }

    /// The store after an update with `input`.
    pub open spec fn update_workspace(self, input: workspace::ActiveModel) -> State {
        match self.workspace_to_update(input) {
            Ok(row) => self.with_workspace_replaced(row),
            Err(_) => self,
        }
    }

    /// The store after the workspace with the key `id` was deleted, and with it every
    /// row that hung on it: a row goes when its parent goes.
    pub open spec fn delete_workspace(self, id: i32) -> State {
        let workspaces = without_key(self.workspaces, id);
        let groups = with_owner_in(self.groups, workspaces);
        let bookmarks = with_owner_in(self.bookmarks, groups);
        State { workspaces, groups, bookmarks, ..self }
    }

    /// The row that an insert of `input` adds to the groups, or why the store
    /// refuses it.
    pub open spec fn group_to_insert(
        self,
        input: groups::ActiveModel,
    ) -> Result<groups::Model, DbError> {
        if !(input.id is NotSet) {
            Err(DbError::PrimaryKeyStaged(Entity::Group))
        } else if !input.complete() {
            Err(DbError::AttrNotSet(Entity::Group))
        } else if self.next_group == i32::MAX {
            Err(DbError::KeysExhausted(Entity::Group))
        } else if !has_key(self.workspaces, input.row(self.next_group).workspace_id) {
            Err(DbError::ForeignKeyViolation(Entity::Group))
        } else {
            Ok(input.row(self.next_group))
        }
    }

    /// The store with one more group, whose key is used up.
    pub open spec fn with_group(self, row: groups::Model) -> State {
        State {
            groups: self.groups.push(row),
            next_group: (row.id + 1) as i32,
            ..self
        }
    }

    /// The store after an insert of `input`.
    pub open spec fn insert_group(self, input: groups::ActiveModel) -> State {
        match self.group_to_insert(input) {
            Ok(row) => self.with_group(row),
            Err(_) => self,
        }
    }

    /// The row that an update with `input` leaves in the groups, or why the store
    /// refuses it.
    pub open spec fn group_to_update(
        self,
        input: groups::ActiveModel,
    ) -> Result<groups::Model, DbError> {
        match input.id.known() {
            None => Err(DbError::UpdateGetPrimaryKey(Entity::Group)),
            Some(key) => match find(self.groups, key) {
                None => Err(DbError::RecordNotFound(Entity::Group)),
                Some(row) => {
                    let written = input.written_over(row);
                    if has_key(self.workspaces, written.workspace_id) {
                        Ok(written)
                    } else {
                        Err(DbError::ForeignKeyViolation(Entity::Group))
                    }
                },
            },
        }
    }

    /// The store with `row` in the place of the group that has its key.
    pub open spec fn with_group_replaced(self, row: groups::Model) -> State {
        State { groups: replaced(self.groups, row), ..self }
    }

    /// The store after an update with `input`.
    pub open spec fn update_group(self, input: groups::ActiveModel) -> State {
        match self.group_to_update(input) {
            Ok(row) => self.with_group_replaced(row),
            Err(_) => self,
        }
    }

    /// The store after the group with the key `id` was deleted, and with it every
    /// row that hung on it: a row goes when its parent goes.
    pub open spec fn delete_group(self, id: i32) -> State {
        let groups = without_key(self.groups, id);
        let bookmarks = with_owner_in(self.bookmarks, groups);
        State { groups, bookmarks, ..self }
    }

    /// The row that an insert of `input` adds to the bookmarks, or why the store
    /// refuses it.
    pub open spec fn bookmark_to_insert(
        self,
        input: bookmark::ActiveModel,
    ) -> Result<bookmark::Model, DbError> {
        if !(input.id is NotSet) {
            Err(DbError::PrimaryKeyStaged(Entity::Bookmark))
        } else if !input.complete() {
            Err(DbError::AttrNotSet(Entity::Bookmark))
        } else if self.next_bookmark == i32::MAX {
            Err(DbError::KeysExhausted(Entity::Bookmark))
        } else if input.row(self.next_bookmark).group_id matches Some(group) && !has_key(
            self.groups,
            group,
        ) {
            Err(DbError::ForeignKeyViolation(Entity::Bookmark))
        } else {
            Ok(input.row(self.next_bookmark))
        }
    }

    /// The store with one more bookmark, whose key is used up.
    pub open spec fn with_bookmark(self, row: bookmark::Model) -> State {
        State {
            bookmarks: self.bookmarks.push(row),
            next_bookmark: (row.id + 1) as i32,
            ..self
        }
    }

    /// The store after an insert of `input`.
    pub open spec fn insert_bookmark(self, input: bookmark::ActiveModel) -> State {
        match self.bookmark_to_insert(input) {
            Ok(row) => self.with_bookmark(row),
            Err(_) => self,
        }
    }

    /// The row that an update with `input` leaves in the bookmarks, or why the store
    /// refuses it.
    pub open spec fn bookmark_to_update(
        self,
        input: bookmark::ActiveModel,
    ) -> Result<bookmark::Model, DbError> {
        match input.id.known() {
            None => Err(DbError::UpdateGetPrimaryKey(Entity::Bookmark)),
            Some(key) => match find(self.bookmarks, key) {
                None => Err(DbError::RecordNotFound(Entity::Bookmark)),
                Some(row) => {
                    let written = input.written_over(row);
                    if written.group_id matches Some(group) && !has_key(self.groups, group) {
                        Err(DbError::ForeignKeyViolation(Entity::Bookmark))
                    } else {
                        Ok(written)
                    }
                },
            },
        }
    }

    /// The store with `row` in the place of the bookmark that has its key.
    pub open spec fn with_bookmark_replaced(self, row: bookmark::Model) -> State {
        State { bookmarks: replaced(self.bookmarks, row), ..self }
    }

    /// The store after an update with `input`.
    pub open spec fn update_bookmark(self, input: bookmark::ActiveModel) -> State {
        match self.bookmark_to_update(input) {
            Ok(row) => self.with_bookmark_replaced(row),
            Err(_) => self,
        }
    }

    /// The store after the bookmark with the key `id` was deleted.
    pub open spec fn delete_bookmark(self, id: i32) -> State {
        let bookmarks = without_key(self.bookmarks, id);
        State { bookmarks, ..self }
    }

    /// An insert leaves the store well formed.
    pub proof fn lemma_insert_user_wf(self, input: user::ActiveModel)
        requires
            self.wf(),
        ensures
            self.insert_user(input).wf(),
    {
        if let Ok(row) = self.user_to_insert(input) {
            lemma_push_keyed(self.users, row, self.next_user);
            lemma_push_parent(self.organizations, self.users, row);
        }
    }

    /// An update leaves the store well formed.
    pub proof fn lemma_update_user_wf(self, input: user::ActiveModel)
        requires
            self.wf(),
        ensures
            self.update_user(input).wf(),
    {
        if let Ok(row) = self.user_to_update(input) {
            lemma_replaced_keyed(self.users, row, self.next_user);
            lemma_replaced_parent(self.organizations, self.users, row);
        }
    }

    /// A delete leaves the store well formed: no row is left without its parent.
    pub proof fn lemma_delete_user_wf(self, id: i32)
        requires
            self.wf(),
        ensures
            self.delete_user(id).wf(),
    {
        let after = self.delete_user(id);
        lemma_filter_keyed(self.users, key_is_not(id), self.next_user);
        lemma_filter_keyed(self.organizations, owner_among(after.users), self.next_organization);
        lemma_with_owner_in(self.organizations, after.users);
        lemma_filter_keyed(self.workspaces, owner_among(after.organizations), self.next_workspace);
        lemma_with_owner_in(self.workspaces, after.organizations);
        lemma_filter_keyed(self.groups, owner_among(after.workspaces), self.next_group);
        lemma_with_owner_in(self.groups, after.workspaces);
        lemma_filter_keyed(self.bookmarks, owner_among(after.groups), self.next_bookmark);
        lemma_with_owner_in(self.bookmarks, after.groups);
    }

    /// An insert leaves the store well formed.
    pub proof fn lemma_insert_organization_wf(self, input: organization::ActiveModel)
        requires
            self.wf(),
        ensures
            self.insert_organization(input).wf(),
    {
        if let Ok(row) = self.organization_to_insert(input) {
            lemma_push_keyed(self.organizations, row, self.next_organization);
            lemma_push_child(self.organizations, row, self.users);
            lemma_push_parent(self.workspaces, self.organizations, row);
        }
    }

    /// An update leaves the store well formed.
    pub proof fn lemma_update_organization_wf(self, input: organization::ActiveModel)
        requires
            self.wf(),
        ensures
            self.update_organization(input).wf(),
    {
        if let Ok(row) = self.organization_to_update(input) {
            lemma_replaced_keyed(self.organizations, row, self.next_organization);
            lemma_replaced_child(self.organizations, row, self.users);
            lemma_replaced_parent(self.workspaces, self.organizations, row);
        }
    }

    /// A delete leaves the store well formed: no row is left without its parent.
    pub proof fn lemma_delete_organization_wf(self, id: i32)
        requires
            self.wf(),
        ensures
            self.delete_organization(id).wf(),
    {
        let after = self.delete_organization(id);
        lemma_filter_keyed(self.organizations, key_is_not(id), self.next_organization);
        lemma_filter_owners(self.organizations, key_is_not(id), self.users);
        lemma_filter_keyed(self.workspaces, owner_among(after.organizations), self.next_workspace);
        lemma_with_owner_in(self.workspaces, after.organizations);
        lemma_filter_keyed(self.groups, owner_among(after.workspaces), self.next_group);
        lemma_with_owner_in(self.groups, after.workspaces);
        lemma_filter_keyed(self.bookmarks, owner_among(after.groups), self.next_bookmark);
        lemma_with_owner_in(self.bookmarks, after.groups);
    }

    /// An insert leaves the store well formed.
    pub proof fn lemma_insert_workspace_wf(self, input: workspace::ActiveModel)
        requires
            self.wf(),
        ensures
            self.insert_workspace(input).wf(),
    {
        if let Ok(row) = self.workspace_to_insert(input) {
            lemma_push_keyed(self.workspaces, row, self.next_workspace);
            lemma_push_child(self.workspaces, row, self.organizations);
            lemma_push_parent(self.groups, self.workspaces, row);
        }
    }

    /// An update leaves the store well formed.
    pub proof fn lemma_update_workspace_wf(self, input: workspace::ActiveModel)
        requires
            self.wf(),
        ensures
            self.update_workspace(input).wf(),
    {
        if let Ok(row) = self.workspace_to_update(input) {
            lemma_replaced_keyed(self.workspaces, row, self.next_workspace);
            lemma_replaced_child(self.workspaces, row, self.organizations);
            lemma_replaced_parent(self.groups, self.workspaces, row);
        }
    }

    /// A delete leaves the store well formed: no row is left without its parent.
    pub proof fn lemma_delete_workspace_wf(self, id: i32)
        requires
            self.wf(),
        ensures
            self.delete_workspace(id).wf(),
    {
        let after = self.delete_workspace(id);
        lemma_filter_keyed(self.workspaces, key_is_not(id), self.next_workspace);
        lemma_filter_owners(self.workspaces, key_is_not(id), self.organizations);
        lemma_filter_keyed(self.groups, owner_among(after.workspaces), self.next_group);
        lemma_with_owner_in(self.groups, after.workspaces);
        lemma_filter_keyed(self.bookmarks, owner_among(after.groups), self.next_bookmark);
        lemma_with_owner_in(self.bookmarks, after.groups);
    }

    /// An insert leaves the store well formed.
    pub proof fn lemma_insert_group_wf(self, input: groups::ActiveModel)
        requires
            self.wf(),
        ensures
            self.insert_group(input).wf(),
    {
        if let Ok(row) = self.group_to_insert(input) {
            lemma_push_keyed(self.groups, row, self.next_group);
            lemma_push_child(self.groups, row, self.workspaces);
            lemma_push_parent(self.bookmarks, self.groups, row);
        }
    }

    /// An update leaves the store well formed.
    pub proof fn lemma_update_group_wf(self, input: groups::ActiveModel)
        requires
            self.wf(),
        ensures
            self.update_group(input).wf(),
    {
        if let Ok(row) = self.group_to_update(input) {
            lemma_replaced_keyed(self.groups, row, self.next_group);
            lemma_replaced_child(self.groups, row, self.workspaces);
            lemma_replaced_parent(self.bookmarks, self.groups, row);
        }
    }

    /// A delete leaves the store well formed: no row is left without its parent.
    pub proof fn lemma_delete_group_wf(self, id: i32)
        requires
            self.wf(),
        ensures
            self.delete_group(id).wf(),
    {
        let after = self.delete_group(id);
        lemma_filter_keyed(self.groups, key_is_not(id), self.next_group);
        lemma_filter_owners(self.groups, key_is_not(id), self.workspaces);
        lemma_filter_keyed(self.bookmarks, owner_among(after.groups), self.next_bookmark);
        lemma_with_owner_in(self.bookmarks, after.groups);
    }

    /// An insert leaves the store well formed.
    pub proof fn lemma_insert_bookmark_wf(self, input: bookmark::ActiveModel)
        requires
            self.wf(),
        ensures
            self.insert_bookmark(input).wf(),
    {
        if let Ok(row) = self.bookmark_to_insert(input) {
            lemma_push_keyed(self.bookmarks, row, self.next_bookmark);
            lemma_push_child(self.bookmarks, row, self.groups);
        }
    }

    /// An update leaves the store well formed.
    pub proof fn lemma_update_bookmark_wf(self, input: bookmark::ActiveModel)
        requires
            self.wf(),
        ensures
            self.update_bookmark(input).wf(),
    {
        if let Ok(row) = self.bookmark_to_update(input) {
            lemma_replaced_keyed(self.bookmarks, row, self.next_bookmark);
            lemma_replaced_child(self.bookmarks, row, self.groups);
        }
    }

    /// A delete leaves the store well formed: no row is left without its parent.
    pub proof fn lemma_delete_bookmark_wf(self, id: i32)
        requires
            self.wf(),
        ensures
            self.delete_bookmark(id).wf(),
    {
        let after = self.delete_bookmark(id);
        lemma_filter_keyed(self.bookmarks, key_is_not(id), self.next_bookmark);
        lemma_filter_owners(self.bookmarks, key_is_not(id), self.groups);
    }

    /// The row that an insert adds is found under its key afterwards.
    pub proof fn lemma_insert_user_found(self, input: user::ActiveModel)
        requires
            self.wf(),
        ensures
            self.user_to_insert(input) matches Ok(row) ==> {
                &&& row.id == self.next_user
                &&& find(self.insert_user(input).users, row.id) == Some(row)
            },
    {
        if let Ok(row) = self.user_to_insert(input) {
            lemma_push_keyed(self.users, row, self.next_user);
            lemma_find_at(self.users.push(row), self.users.len() as int);
        }
    }

    /// An update of the row with the key `id` fails if no such row is stored.
    /// Else it is the same whether the changes are laid over the stored row
    /// first or sent as they are, and the row that it leaves is found under
    /// `id` afterwards.
    pub proof fn lemma_update_user_found(self, input: user::ActiveModel, id: i32)
        requires
            self.wf(),
        ensures
            find(self.users, id) is None ==> {
                self.user_to_update(input.with_key(id)) == Err::<user::Model, DbError>(
                    DbError::RecordNotFound(Entity::User),
                )
            },
            find(self.users, id) matches Some(stored) ==> {
                self.user_to_update(input.laid_over(stored.unchanged()))
                    == self.user_to_update(input.with_key(id))
            },
            self.user_to_update(input.with_key(id)) matches Ok(row) ==> {
                &&& row.id == id
                &&& find(self.update_user(input.with_key(id)).users, id) == Some(row)
            },
    {
        if let Some(stored) = find(self.users, id) {
            assert(stored.id == id);
            assert(input.laid_over(stored.unchanged()).written_over(stored) == input.with_key(
                id,
            ).written_over(stored));
            if let Ok(row) = self.user_to_update(input.with_key(id)) {
                lemma_replaced_find(self.users, row, id);
            }
        }
    }

    /// The row that an insert adds is found under its key afterwards.
    pub proof fn lemma_insert_organization_found(self, input: organization::ActiveModel)
        requires
            self.wf(),
        ensures
            self.organization_to_insert(input) matches Ok(row) ==> {
                &&& row.id == self.next_organization
                &&& find(self.insert_organization(input).organizations, row.id) == Some(row)
            },
    {
        if let Ok(row) = self.organization_to_insert(input) {
            lemma_push_keyed(self.organizations, row, self.next_organization);
            lemma_find_at(self.organizations.push(row), self.organizations.len() as int);
        }
    }

    /// An update of the row with the key `id` fails if no such row is stored.
    /// Else it is the same whether the changes are laid over the stored row
    /// first or sent as they are, and the row that it leaves is found under
    /// `id` afterwards.
    pub proof fn lemma_update_organization_found(self, input: organization::ActiveModel, id: i32)
        requires
            self.wf(),
        ensures
            find(self.organizations, id) is None ==> {
                self.organization_to_update(input.with_key(id)) == Err::<
                    organization::Model,
                    DbError,
                >(DbError::RecordNotFound(Entity::Organization))
            },
            find(self.organizations, id) matches Some(stored) ==> {
                self.organization_to_update(input.laid_over(stored.unchanged()))
                    == self.organization_to_update(input.with_key(id))
            },
            self.organization_to_update(input.with_key(id)) matches Ok(row) ==> {
                &&& row.id == id
                &&& find(self.update_organization(input.with_key(id)).organizations, id) == Some(
                    row,
                )
            },
    {
        if let Some(stored) = find(self.organizations, id) {
            assert(stored.id == id);
            assert(input.laid_over(stored.unchanged()).written_over(stored) == input.with_key(
                id,
            ).written_over(stored));
            if let Ok(row) = self.organization_to_update(input.with_key(id)) {
                lemma_replaced_find(self.organizations, row, id);
            }
        }
    }

    /// The row that an insert adds is found under its key afterwards.
    pub proof fn lemma_insert_workspace_found(self, input: workspace::ActiveModel)
        requires
            self.wf(),
        ensures
            self.workspace_to_insert(input) matches Ok(row) ==> {
                &&& row.id == self.next_workspace
                &&& find(self.insert_workspace(input).workspaces, row.id) == Some(row)
            },
    {
        if let Ok(row) = self.workspace_to_insert(input) {
            lemma_push_keyed(self.workspaces, row, self.next_workspace);
            lemma_find_at(self.workspaces.push(row), self.workspaces.len() as int);
        }
    }

    /// An update of the row with the key `id` fails if no such row is stored.
    /// Else it is the same whether the changes are laid over the stored row
    /// first or sent as they are, and the row that it leaves is found under
    /// `id` afterwards.
    pub proof fn lemma_update_workspace_found(self, input: workspace::ActiveModel, id: i32)
        requires
            self.wf(),
        ensures
            find(self.workspaces, id) is None ==> {
                self.workspace_to_update(input.with_key(id)) == Err::<workspace::Model, DbError>(
                    DbError::RecordNotFound(Entity::Workspace),
                )
            },
            find(self.workspaces, id) matches Some(stored) ==> {
                self.workspace_to_update(input.laid_over(stored.unchanged()))
                    == self.workspace_to_update(input.with_key(id))
            },
            self.workspace_to_update(input.with_key(id)) matches Ok(row) ==> {
                &&& row.id == id
                &&& find(self.update_workspace(input.with_key(id)).workspaces, id) == Some(row)
            },
    {
        if let Some(stored) = find(self.workspaces, id) {
            assert(stored.id == id);
            assert(input.laid_over(stored.unchanged()).written_over(stored) == input.with_key(
                id,
            ).written_over(stored));
            if let Ok(row) = self.workspace_to_update(input.with_key(id)) {
                lemma_replaced_find(self.workspaces, row, id);
            }
        }
    }

    /// The row that an insert adds is found under its key afterwards.
    pub proof fn lemma_insert_group_found(self, input: groups::ActiveModel)
        requires
            self.wf(),
        ensures
            self.group_to_insert(input) matches Ok(row) ==> {
                &&& row.id == self.next_group
                &&& find(self.insert_group(input).groups, row.id) == Some(row)
            },
    {
        if let Ok(row) = self.group_to_insert(input) {
            lemma_push_keyed(self.groups, row, self.next_group);
            lemma_find_at(self.groups.push(row), self.groups.len() as int);
        }
    }

    /// An update of the row with the key `id` fails if no such row is stored.
    /// Else it is the same whether the changes are laid over the stored row
    /// first or sent as they are, and the row that it leaves is found under
    /// `id` afterwards.
    pub proof fn lemma_update_group_found(self, input: groups::ActiveModel, id: i32)
        requires
            self.wf(),
        ensures
            find(self.groups, id) is None ==> {
                self.group_to_update(input.with_key(id)) == Err::<groups::Model, DbError>(
                    DbError::RecordNotFound(Entity::Group),
                )
            },
            find(self.groups, id) matches Some(stored) ==> {
                self.group_to_update(input.laid_over(stored.unchanged()))
                    == self.group_to_update(input.with_key(id))
            },
            self.group_to_update(input.with_key(id)) matches Ok(row) ==> {
                &&& row.id == id
                &&& find(self.update_group(input.with_key(id)).groups, id) == Some(row)
            },
    {
        if let Some(stored) = find(self.groups, id) {
            assert(stored.id == id);
            assert(input.laid_over(stored.unchanged()).written_over(stored) == input.with_key(
                id,
            ).written_over(stored));
            if let Ok(row) = self.group_to_update(input.with_key(id)) {
                lemma_replaced_find(self.groups, row, id);
            }
        }
    }

    /// The row that an insert adds is found under its key afterwards.
    pub proof fn lemma_insert_bookmark_found(self, input: bookmark::ActiveModel)
        requires
            self.wf(),
        ensures
            self.bookmark_to_insert(input) matches Ok(row) ==> {
                &&& row.id == self.next_bookmark
                &&& find(self.insert_bookmark(input).bookmarks, row.id) == Some(row)
            },
    {
        if let Ok(row) = self.bookmark_to_insert(input) {
            lemma_push_keyed(self.bookmarks, row, self.next_bookmark);
            lemma_find_at(self.bookmarks.push(row), self.bookmarks.len() as int);
        }
    }

    /// An update of the row with the key `id` fails if no such row is stored.
    /// Else it is the same whether the changes are laid over the stored row
    /// first or sent as they are, and the row that it leaves is found under
    /// `id` afterwards.
    pub proof fn lemma_update_bookmark_found(self, input: bookmark::ActiveModel, id: i32)
        requires
            self.wf(),
        ensures
            find(self.bookmarks, id) is None ==> {
                self.bookmark_to_update(input.with_key(id)) == Err::<bookmark::Model, DbError>(
                    DbError::RecordNotFound(Entity::Bookmark),
                )
            },
            find(self.bookmarks, id) matches Some(stored) ==> {
                self.bookmark_to_update(input.laid_over(stored.unchanged()))
                    == self.bookmark_to_update(input.with_key(id))
            },
            self.bookmark_to_update(input.with_key(id)) matches Ok(row) ==> {
                &&& row.id == id
                &&& find(self.update_bookmark(input.with_key(id)).bookmarks, id) == Some(row)
            },
    {
        if let Some(stored) = find(self.bookmarks, id) {
            assert(stored.id == id);
            assert(input.laid_over(stored.unchanged()).written_over(stored) == input.with_key(
                id,
            ).written_over(stored));
            if let Ok(row) = self.bookmark_to_update(input.with_key(id)) {
                lemma_replaced_find(self.bookmarks, row, id);
            }
        }
    }

}

} // verus!
