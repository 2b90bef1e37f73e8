//! Workspaces: each belongs to one organization.

use vstd::prelude::*;

use crate::entity::{ActiveValue, Owned, Record};
use crate::time::Timestamp;

verus! {

/// One row of the workspace table.
///
/// `deleted_at` could mark a row as deleted without removing it. No service
/// sets it and nothing reads it: a delete removes the row for good, and every
/// row that is stored is live.
#[derive(Debug, PartialEq, Eq)]
pub struct Model {
    pub id: i32,
    pub name: String,
    pub organization_id: i32,
    pub created_at: Timestamp,
    pub updated_at: Timestamp,
    pub deleted_at: Option<Timestamp>,
}

/// A workspace row staged for an insert or an update.
#[derive(Debug, PartialEq, Eq)]
pub struct ActiveModel {
    pub id: ActiveValue<i32>,
    pub name: ActiveValue<String>,
    pub organization_id: ActiveValue<i32>,
    pub created_at: ActiveValue<Timestamp>,
    pub updated_at: ActiveValue<Timestamp>,
    pub deleted_at: ActiveValue<Option<Timestamp>>,
}

impl Clone for Model {
    fn clone(&self) -> (r: Model)
        ensures
            r == *self,
    {
        Model {
            id: self.id,
            name: self.name.clone(),
            organization_id: self.organization_id,
            created_at: self.created_at,
            updated_at: self.updated_at,
            deleted_at: self.deleted_at,
        }
    }
}

impl Record for Model {
    open spec fn key(&self) -> i32 {
        self.id
    }

    fn id(&self) -> (r: i32) {
        self.id
    }

    fn duplicate(&self) -> (r: Model) {
        self.clone()
    }
}

impl Owned for Model {
    open spec fn owner(&self) -> Option<i32> {
        Some(self.organization_id)
    }

    fn owner_id(&self) -> (r: Option<i32>) {
        Some(self.organization_id)
    }
}

impl Model {
    /// The row as a staged row that changes nothing.
    pub open spec fn unchanged(self) -> ActiveModel {
        ActiveModel {
            id: ActiveValue::Unchanged(self.id),
            name: ActiveValue::Unchanged(self.name),
            organization_id: ActiveValue::Unchanged(self.organization_id),
            created_at: ActiveValue::Unchanged(self.created_at),
            updated_at: ActiveValue::Unchanged(self.updated_at),
            deleted_at: ActiveValue::Unchanged(self.deleted_at),
        }
    }

    pub fn into_active_model(self) -> (r: ActiveModel)
        ensures
            r == self.unchanged(),
    {
        ActiveModel {
            id: ActiveValue::Unchanged(self.id),
            name: ActiveValue::Unchanged(self.name),
            organization_id: ActiveValue::Unchanged(self.organization_id),
            created_at: ActiveValue::Unchanged(self.created_at),
            updated_at: ActiveValue::Unchanged(self.updated_at),
            deleted_at: ActiveValue::Unchanged(self.deleted_at),
        }
    }
}

impl ActiveModel {
    /// The staged row without a value in any column.
    pub open spec fn empty() -> ActiveModel {
        ActiveModel {
            id: ActiveValue::NotSet,
            name: ActiveValue::NotSet,
            organization_id: ActiveValue::NotSet,
            created_at: ActiveValue::NotSet,
            updated_at: ActiveValue::NotSet,
            deleted_at: ActiveValue::NotSet,
        }
    }

    pub fn new() -> (r: ActiveModel)
        ensures
            r == ActiveModel::empty(),
    {
        ActiveModel {
            id: ActiveValue::NotSet,
            name: ActiveValue::NotSet,
            organization_id: ActiveValue::NotSet,
            created_at: ActiveValue::NotSet,
            updated_at: ActiveValue::NotSet,
            deleted_at: ActiveValue::NotSet,
        }
    }

    /// The staged row with `id` as the key of the row that it is about.
    pub open spec fn with_key(self, id: i32) -> ActiveModel {
        ActiveModel { id: ActiveValue::Unchanged(id), ..self }
    }

    /// Every column that may not be null has a value.
    pub open spec fn complete(self) -> bool {
        &&& self.name.known() is Some
        &&& self.organization_id.known() is Some
        &&& self.created_at.known() is Some
        &&& self.updated_at.known() is Some
    }

    pub fn is_complete(&self) -> (r: bool)
        ensures
            r == self.complete(),
    {
        !self.name.is_not_set()
            && !self.organization_id.is_not_set()
            && !self.created_at.is_not_set()
            && !self.updated_at.is_not_set()
    }

    /// The row that an insert writes under the key `id`.
    pub open spec fn row(self, id: i32) -> Model {
        Model {
            id,
            name: self.name.known()->0,
            organization_id: self.organization_id.known()->0,
            created_at: self.created_at.known()->0,
            updated_at: self.updated_at.known()->0,
            deleted_at: match self.deleted_at.known() {
                Some(at) => at,
                None => None,
            },
        }
    }

    pub fn into_row(self, id: i32) -> (r: Model)
        requires
            self.complete(),
        ensures
            r == self.row(id),
    {
        Model {
            id,
            name: self.name.unwrap(),
            organization_id: self.organization_id.unwrap(),
            created_at: self.created_at.unwrap(),
            updated_at: self.updated_at.unwrap(),
            deleted_at: match self.deleted_at.into_value() {
                Some(at) => at,
                None => None,
            },
        }
    }

    /// What an update with this staged row leaves of the stored row `row`: the
    /// columns that are changed are written, the others and the key stay.
    pub open spec fn written_over(self, row: Model) -> Model {
        Model {
            id: row.id,
            name: self.name.over(row.name),
            organization_id: self.organization_id.over(row.organization_id),
            created_at: self.created_at.over(row.created_at),
            updated_at: self.updated_at.over(row.updated_at),
            deleted_at: self.deleted_at.over(row.deleted_at),
        }
    }

    pub fn write_over(self, row: Model) -> (r: Model)
        ensures
            r == self.written_over(row),
    {
        Model {
            id: row.id,
            name: self.name.write_over(row.name),
            organization_id: self.organization_id.write_over(row.organization_id),
            created_at: self.created_at.write_over(row.created_at),
            updated_at: self.updated_at.write_over(row.updated_at),
            deleted_at: self.deleted_at.write_over(row.deleted_at),
        }
    }

    /// The staged row `base` with the columns that are changed here laid over it. The
    /// key is that of `base`.
    pub open spec fn laid_over(self, base: ActiveModel) -> ActiveModel {
        ActiveModel {
            id: base.id,
            name: self.name.or(base.name),
            organization_id: self.organization_id.or(base.organization_id),
            created_at: self.created_at.or(base.created_at),
            updated_at: self.updated_at.or(base.updated_at),
            deleted_at: self.deleted_at.or(base.deleted_at),
        }
    }

    pub fn lay_over(self, base: ActiveModel) -> (r: ActiveModel)
        ensures
            r == self.laid_over(base),
    {
        ActiveModel {
            id: base.id,
            name: self.name.or_else(base.name),
            organization_id: self.organization_id.or_else(base.organization_id),
            created_at: self.created_at.or_else(base.created_at),
            updated_at: self.updated_at.or_else(base.updated_at),
            deleted_at: self.deleted_at.or_else(base.deleted_at),
        }
    }
}

} // verus!
