//! What callers send and receive for users, and how that turns into rows.

use vstd::prelude::*;
use vstd::std_specs::convert::FromSpecImpl;

use crate::entity::user::{ActiveModel, Model};
use crate::entity::ActiveValue;
use crate::time::Timestamp;

verus! {

/// A user as callers see it.
#[derive(Debug, PartialEq, Eq)]
pub struct UserDto {
    pub id: i32,
    pub name: String,
    pub email: String,
    pub created_at: Timestamp,
    pub updated_at: Timestamp,
}

/// What it takes to create a user. The store gives the id; both
/// timestamps are the time of the call.
#[derive(Debug, PartialEq, Eq)]
pub struct CreateUserDto {
    pub name: String,
    pub email: String,
}

/// A change to a user: `id` says which one, and a field that is `None`
/// stays as it is.
#[derive(Debug, PartialEq, Eq)]
pub struct UpdateUserDto {
    pub id: Option<i32>,
    pub name: Option<String>,
    pub email: Option<String>,
}

impl Clone for UserDto {
    fn clone(&self) -> (r: UserDto)
        ensures
            r == *self,
    {
        UserDto {
            id: self.id,
            name: self.name.clone(),
            email: self.email.clone(),
            created_at: self.created_at,
            updated_at: self.updated_at,
        }
    }
}

impl Clone for CreateUserDto {
    fn clone(&self) -> (r: CreateUserDto)
        ensures
            r == *self,
    {
        CreateUserDto {
            name: self.name.clone(),
            email: self.email.clone(),
        }
    }
}

impl Clone for UpdateUserDto {
    fn clone(&self) -> (r: UpdateUserDto)
        ensures
            r == *self,
    {
        UpdateUserDto {
            id: self.id,
            name: self.name.clone(),
            email: self.email.clone(),
        }
    }
}

impl UserDto {
    /// The row as callers see it: every column, unchanged.
    pub open spec fn of(model: Model) -> UserDto {
        UserDto {
            id: model.id,
            name: model.name,
            email: model.email,
            created_at: model.created_at,
            updated_at: model.updated_at,
        }
    }
}

impl From<Model> for UserDto {
    fn from(model: Model) -> (dto: UserDto) {
        UserDto {
            id: model.id,
            name: model.name,
            email: model.email,
            created_at: model.created_at,
            updated_at: model.updated_at,
        }
    }
}

impl FromSpecImpl<Model> for UserDto {
    open spec fn obeys_from_spec() -> bool {
        true
    }

    open spec fn from_spec(model: Model) -> UserDto {
        UserDto::of(model)
    }
}

impl CreateUserDto {
    /// The row to insert at the time `now`: the input's fields, both timestamps
    /// at `now`, and no id.
    pub open spec fn staged(self, now: Timestamp) -> ActiveModel {
        ActiveModel {
            id: ActiveValue::NotSet,
            name: ActiveValue::Changed(self.name),
            email: ActiveValue::Changed(self.email),
            created_at: ActiveValue::Changed(now),
            updated_at: ActiveValue::Changed(now),
        }
    }

    pub fn into_active_model(self, now: Timestamp) -> (r: ActiveModel)
        ensures
            r == self.staged(now),
    {
        ActiveModel {
            id: ActiveValue::NotSet,
            name: ActiveValue::Changed(self.name),
            email: ActiveValue::Changed(self.email),
            created_at: ActiveValue::Changed(now),
            updated_at: ActiveValue::Changed(now),
        }
    }
}

impl UpdateUserDto {
    /// The staged row `model` with this change laid over it at the time `now`:
    /// the fields that are present are changed, `updated_at` is changed to `now`
    /// whatever else is, and the rest is as in `model`.
    pub open spec fn applied(self, model: ActiveModel, now: Timestamp) -> ActiveModel {
        ActiveModel {
            id: model.id,
            name: match self.name {
                Some(v) => ActiveValue::Changed(v),
                None => model.name,
            },
            email: match self.email {
                Some(v) => ActiveValue::Changed(v),
                None => model.email,
            },
            created_at: model.created_at,
            updated_at: ActiveValue::Changed(now),
        }
    }

    pub fn apply_to_model(self, model: ActiveModel, now: Timestamp) -> (r: ActiveModel)
        ensures
            r == self.applied(model, now),
    {
        ActiveModel {
            id: model.id,
            name: match self.name {
                Some(v) => ActiveValue::Changed(v),
                None => model.name,
            },
            email: match self.email {
                Some(v) => ActiveValue::Changed(v),
                None => model.email,
            },
            created_at: model.created_at,
            updated_at: ActiveValue::Changed(now),
        }
    }

    /// What an update of the user with the key `id` sends to the store at the
    /// time `now`: this change and nothing else.
    pub open spec fn changes(self, id: i32, now: Timestamp) -> ActiveModel {
        self.applied(ActiveModel::empty(), now).with_key(id)
    }
}

} // verus!
