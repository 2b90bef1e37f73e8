//! What callers send and receive for groups, and how that turns into rows.

use vstd::prelude::*;
use vstd::std_specs::convert::FromSpecImpl;

use crate::entity::groups::{ActiveModel, Model};
use crate::entity::ActiveValue;
use crate::time::Timestamp;

verus! {

/// A group as callers see it.
#[derive(Debug, PartialEq, Eq)]
pub struct GroupsDto {
    pub id: i32,
    pub name: String,
    pub workspace_id: i32,
    pub created_at: Timestamp,
    pub updated_at: Timestamp,
}

/// What it takes to create a group. The store gives the id; both
/// timestamps are the time of the call.
#[derive(Debug, PartialEq, Eq)]
pub struct CreateGroupsDto {
    pub name: String,
    pub workspace_id: i32,
}

/// A change to a group: `id` says which one, and a field that is `None`
/// stays as it is.
#[derive(Debug, PartialEq, Eq)]
pub struct UpdateGroupsDto {
    pub id: Option<i32>,
    pub name: Option<String>,
    pub workspace_id: Option<i32>,
}

impl Clone for GroupsDto {
    fn clone(&self) -> (r: GroupsDto)
        ensures
            r == *self,
    {
        GroupsDto {
            id: self.id,
            name: self.name.clone(),
            workspace_id: self.workspace_id,
            created_at: self.created_at,
            updated_at: self.updated_at,
        }
    }
}

impl Clone for CreateGroupsDto {
    fn clone(&self) -> (r: CreateGroupsDto)
        ensures
            r == *self,
    {
        CreateGroupsDto {
            name: self.name.clone(),
            workspace_id: self.workspace_id,
        }
    }
}

impl Clone for UpdateGroupsDto {
    fn clone(&self) -> (r: UpdateGroupsDto)
        ensures
            r == *self,
    {
        UpdateGroupsDto {
            id: self.id,
            name: self.name.clone(),
            workspace_id: self.workspace_id,
        }
    }
}

impl GroupsDto {
    /// The row as callers see it: every column, unchanged.
    pub open spec fn of(model: Model) -> GroupsDto {
        GroupsDto {
            id: model.id,
            name: model.name,
            workspace_id: model.workspace_id,
            created_at: model.created_at,
            updated_at: model.updated_at,
        }
    }
}

impl From<Model> for GroupsDto {
    fn from(model: Model) -> (dto: GroupsDto) {
        GroupsDto {
            id: model.id,
            name: model.name,
            workspace_id: model.workspace_id,
            created_at: model.created_at,
            updated_at: model.updated_at,
        }
    }
}

impl FromSpecImpl<Model> for GroupsDto {
    open spec fn obeys_from_spec() -> bool {
        true
    }

    open spec fn from_spec(model: Model) -> GroupsDto {
        GroupsDto::of(model)
    }
}

impl CreateGroupsDto {
    /// The row to insert at the time `now`: the input's fields, both timestamps
    /// at `now`, and no id.
    pub open spec fn staged(self, now: Timestamp) -> ActiveModel {
        ActiveModel {
            id: ActiveValue::NotSet,
            name: ActiveValue::Changed(self.name),
            workspace_id: ActiveValue::Changed(self.workspace_id),
            created_at: ActiveValue::Changed(now),
            updated_at: ActiveValue::Changed(now),
        }
    }

    pub fn into_active_model(self, now: Timestamp) -> (r: ActiveModel)
        ensures
            r == self.staged(now),
    {
        ActiveModel {
            id: ActiveValue::NotSet,
            name: ActiveValue::Changed(self.name),
            workspace_id: ActiveValue::Changed(self.workspace_id),
            created_at: ActiveValue::Changed(now),
            updated_at: ActiveValue::Changed(now),
        }
    }
}

impl UpdateGroupsDto {
    /// The staged row `model` with this change laid over it at the time `now`:
    /// the fields that are present are changed, `updated_at` is changed to `now`
    /// whatever else is, and the rest is as in `model`.
    pub open spec fn applied(self, model: ActiveModel, now: Timestamp) -> ActiveModel {
        ActiveModel {
            id: model.id,
            name: match self.name {
                Some(v) => ActiveValue::Changed(v),
                None => model.name,
            },
            workspace_id: match self.workspace_id {
                Some(v) => ActiveValue::Changed(v),
                None => model.workspace_id,
            },
            created_at: model.created_at,
            updated_at: ActiveValue::Changed(now),
        }
    }

    pub fn apply_to_model(self, model: ActiveModel, now: Timestamp) -> (r: ActiveModel)
        ensures
            r == self.applied(model, now),
    {
        ActiveModel {
            id: model.id,
            name: match self.name {
                Some(v) => ActiveValue::Changed(v),
                None => model.name,
            },
            workspace_id: match self.workspace_id {
                Some(v) => ActiveValue::Changed(v),
                None => model.workspace_id,
            },
            created_at: model.created_at,
            updated_at: ActiveValue::Changed(now),
        }
    }

    /// What an update of the group with the key `id` sends to the store at the
    /// time `now`: this change and nothing else.
    pub open spec fn changes(self, id: i32, now: Timestamp) -> ActiveModel {
        self.applied(ActiveModel::empty(), now).with_key(id)
    }
}

/// A group of a workspace, reduced to its id and its name.
#[derive(Debug, PartialEq, Eq)]
pub struct GroupsByWorkspaceOrg {
    pub id: i32,
    pub name: String,
}

impl Clone for GroupsByWorkspaceOrg {
    fn clone(&self) -> (r: GroupsByWorkspaceOrg)
        ensures
            r == *self,
    {
        GroupsByWorkspaceOrg { id: self.id, name: self.name.clone() }
    }
}

impl GroupsByWorkspaceOrg {
    pub open spec fn of(model: Model) -> GroupsByWorkspaceOrg {
        GroupsByWorkspaceOrg { id: model.id, name: model.name }
    }
}

impl From<Model> for GroupsByWorkspaceOrg {
    fn from(model: Model) -> (r: GroupsByWorkspaceOrg) {
        GroupsByWorkspaceOrg { id: model.id, name: model.name }
    }
}

impl FromSpecImpl<Model> for GroupsByWorkspaceOrg {
    open spec fn obeys_from_spec() -> bool {
        true
    }

    open spec fn from_spec(model: Model) -> GroupsByWorkspaceOrg {
        GroupsByWorkspaceOrg::of(model)
    }
}

} // verus!
