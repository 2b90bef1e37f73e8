//! What callers send and receive for workspaces, and how that turns into rows.

use vstd::prelude::*;
use vstd::std_specs::convert::FromSpecImpl;

use crate::entity::workspace::{ActiveModel, Model};
use crate::entity::ActiveValue;
use crate::time::Timestamp;

verus! {

/// A workspace as callers see it.
#[derive(Debug, PartialEq, Eq)]
pub struct WorkspaceDto {
    pub id: i32,
    pub name: String,
    pub organization_id: i32,
    pub created_at: Timestamp,
    pub updated_at: Timestamp,
    pub deleted_at: Option<Timestamp>,
}

/// What it takes to create a workspace. The store gives the id; both
/// timestamps are the time of the call.
#[derive(Debug, PartialEq, Eq)]
pub struct CreateWorkspaceDto {
    pub name: String,
    pub organization_id: i32,
}

/// A change to a workspace: `id` says which one, and a field that is `None`
/// stays as it is.
#[derive(Debug, PartialEq, Eq)]
pub struct UpdateWorkspaceDto {
    pub id: Option<i32>,
    pub name: Option<String>,
    pub organization_id: Option<i32>,
}

impl Clone for WorkspaceDto {
    fn clone(&self) -> (r: WorkspaceDto)
        ensures
            r == *self,
    {
        WorkspaceDto {
            id: self.id,
            name: self.name.clone(),
            organization_id: self.organization_id,
            created_at: self.created_at,
            updated_at: self.updated_at,
            deleted_at: self.deleted_at,
        }
    }
}

impl Clone for CreateWorkspaceDto {
    fn clone(&self) -> (r: CreateWorkspaceDto)
        ensures
            r == *self,
    {
        CreateWorkspaceDto {
            name: self.name.clone(),
            organization_id: self.organization_id,
        }
    }
}

impl Clone for UpdateWorkspaceDto {
    fn clone(&self) -> (r: UpdateWorkspaceDto)
        ensures
            r == *self,
    {
        UpdateWorkspaceDto {
            id: self.id,
            name: self.name.clone(),
            organization_id: self.organization_id,
        }
    }
}

impl WorkspaceDto {
    /// The row as callers see it: every column, unchanged.
    pub open spec fn of(model: Model) -> WorkspaceDto {
        WorkspaceDto {
            id: model.id,
            name: model.name,
            organization_id: model.organization_id,
            created_at: model.created_at,
            updated_at: model.updated_at,
            deleted_at: model.deleted_at,
        }
    }
}

impl From<Model> for WorkspaceDto {
    fn from(model: Model) -> (dto: WorkspaceDto) {
        WorkspaceDto {
            id: model.id,
            name: model.name,
            organization_id: model.organization_id,
            created_at: model.created_at,
            updated_at: model.updated_at,
            deleted_at: model.deleted_at,
        }
    }
}

impl FromSpecImpl<Model> for WorkspaceDto {
    open spec fn obeys_from_spec() -> bool {
        true
    }

    open spec fn from_spec(model: Model) -> WorkspaceDto {
        WorkspaceDto::of(model)
    }
}

impl CreateWorkspaceDto {
    /// The row to insert at the time `now`: the input's fields, both timestamps
    /// at `now`, and no id.
    pub open spec fn staged(self, now: Timestamp) -> ActiveModel {
        ActiveModel {
            id: ActiveValue::NotSet,
            name: ActiveValue::Changed(self.name),
            organization_id: ActiveValue::Changed(self.organization_id),
            created_at: ActiveValue::Changed(now),
            updated_at: ActiveValue::Changed(now),
            deleted_at: ActiveValue::NotSet,
        }
    }

    pub fn into_active_model(self, now: Timestamp) -> (r: ActiveModel)
        ensures
            r == self.staged(now),
    {
        ActiveModel {
            id: ActiveValue::NotSet,
            name: ActiveValue::Changed(self.name),
            organization_id: ActiveValue::Changed(self.organization_id),
            created_at: ActiveValue::Changed(now),
            updated_at: ActiveValue::Changed(now),
            deleted_at: ActiveValue::NotSet,
        }
    }
}

impl UpdateWorkspaceDto {
    /// The staged row `model` with this change laid over it at the time `now`:
    /// the fields that are present are changed, `updated_at` is changed to `now`
    /// whatever else is, and the rest is as in `model`.
    pub open spec fn applied(self, model: ActiveModel, now: Timestamp) -> ActiveModel {
        ActiveModel {
            id: model.id,
            name: match self.name {
                Some(v) => ActiveValue::Changed(v),
                None => model.name,
            },
            organization_id: match self.organization_id {
                Some(v) => ActiveValue::Changed(v),
                None => model.organization_id,
            },
            created_at: model.created_at,
            updated_at: ActiveValue::Changed(now),
            deleted_at: model.deleted_at,
        }
    }

    pub fn apply_to_model(self, model: ActiveModel, now: Timestamp) -> (r: ActiveModel)
        ensures
            r == self.applied(model, now),
    {
        ActiveModel {
            id: model.id,
            name: match self.name {
                Some(v) => ActiveValue::Changed(v),
                None => model.name,
            },
            organization_id: match self.organization_id {
                Some(v) => ActiveValue::Changed(v),
                None => model.organization_id,
            },
            created_at: model.created_at,
            updated_at: ActiveValue::Changed(now),
            deleted_at: model.deleted_at,
        }
    }

    /// What an update of the workspace with the key `id` sends to the store at the
    /// time `now`: this change and nothing else.
    pub open spec fn changes(self, id: i32, now: Timestamp) -> ActiveModel {
        self.applied(ActiveModel::empty(), now).with_key(id)
    }
}

} // verus!
