//! What callers send and receive for bookmarks, and how that turns into rows.

use vstd::prelude::*;
use vstd::std_specs::convert::FromSpecImpl;

use crate::entity::bookmark::{ActiveModel, Model};
use crate::entity::ActiveValue;
use crate::time::Timestamp;

verus! {

/// A bookmark as callers see it.
#[derive(Debug, PartialEq, Eq)]
pub struct BookmarkDto {
    pub id: i32,
    pub name: String,
    pub url: String,
    pub tags: String,
    pub is_favorite: bool,
    pub group_id: Option<i32>,
    pub created_at: Timestamp,
    pub updated_at: Timestamp,
    pub deleted_at: Option<Timestamp>,
}

/// What it takes to create a bookmark, in a group or in none. The store gives
/// the id; both timestamps are the time of the call.
#[derive(Debug, PartialEq, Eq)]
pub struct CreateBookmarkRequest {
    pub name: String,
    pub url: String,
    pub tags: String,
    pub is_favorite: bool,
    pub group_id: Option<i32>,
}

/// A change to a bookmark: `id` says which one, and a field that is `None`
/// stays as it is. A `group_id` moves the bookmark to that group; no change
/// takes a bookmark out of its group.
#[derive(Debug, PartialEq, Eq)]
pub struct UpdateBookmarkRequest {
    pub id: Option<i32>,
    pub name: Option<String>,
    pub url: Option<String>,
    pub tags: Option<String>,
    pub is_favorite: Option<bool>,
    pub group_id: Option<i32>,
}

impl Clone for BookmarkDto {
    fn clone(&self) -> (r: BookmarkDto)
        ensures
            r == *self,
    {
        BookmarkDto {
            id: self.id,
            name: self.name.clone(),
            url: self.url.clone(),
            tags: self.tags.clone(),
            is_favorite: self.is_favorite,
            group_id: self.group_id,
            created_at: self.created_at,
            updated_at: self.updated_at,
            deleted_at: self.deleted_at,
        }
    }
}

impl Clone for CreateBookmarkRequest {
    fn clone(&self) -> (r: CreateBookmarkRequest)
        ensures
            r == *self,
    {
        CreateBookmarkRequest {
            name: self.name.clone(),
            url: self.url.clone(),
            tags: self.tags.clone(),
            is_favorite: self.is_favorite,
            group_id: self.group_id,
        }
    }
}

impl Clone for UpdateBookmarkRequest {
    fn clone(&self) -> (r: UpdateBookmarkRequest)
        ensures
            r == *self,
    {
        UpdateBookmarkRequest {
            id: self.id,
            name: self.name.clone(),
            url: self.url.clone(),
            tags: self.tags.clone(),
            is_favorite: self.is_favorite,
            group_id: self.group_id,
        }
    }
}

impl BookmarkDto {
    /// The row as callers see it: every column, unchanged.
    pub open spec fn of(model: Model) -> BookmarkDto {
        BookmarkDto {
            id: model.id,
            name: model.name,
            url: model.url,
            tags: model.tags,
            is_favorite: model.is_favorite,
            group_id: model.group_id,
            created_at: model.created_at,
            updated_at: model.updated_at,
            deleted_at: model.deleted_at,
        }
    }
}

impl From<Model> for BookmarkDto {
    fn from(model: Model) -> (dto: BookmarkDto) {
        BookmarkDto {
            id: model.id,
            name: model.name,
            url: model.url,
            tags: model.tags,
            is_favorite: model.is_favorite,
            group_id: model.group_id,
            created_at: model.created_at,
            updated_at: model.updated_at,
            deleted_at: model.deleted_at,
        }
    }
}

impl FromSpecImpl<Model> for BookmarkDto {
    open spec fn obeys_from_spec() -> bool {
        true
    }

    open spec fn from_spec(model: Model) -> BookmarkDto {
        BookmarkDto::of(model)
    }
}

impl CreateBookmarkRequest {
    /// The row to insert at the time `now`: the input's fields, both timestamps
    /// at `now`, and no id.
    pub open spec fn staged(self, now: Timestamp) -> ActiveModel {
        ActiveModel {
            id: ActiveValue::NotSet,
            name: ActiveValue::Changed(self.name),
            url: ActiveValue::Changed(self.url),
            tags: ActiveValue::Changed(self.tags),
            is_favorite: ActiveValue::Changed(self.is_favorite),
            group_id: ActiveValue::Changed(self.group_id),
            created_at: ActiveValue::Changed(now),
            updated_at: ActiveValue::Changed(now),
            deleted_at: ActiveValue::NotSet,
        }
    }

    pub fn into_active_model(self, now: Timestamp) -> (r: ActiveModel)
        ensures
            r == self.staged(now),
    {
        ActiveModel {
            id: ActiveValue::NotSet,
            name: ActiveValue::Changed(self.name),
            url: ActiveValue::Changed(self.url),
            tags: ActiveValue::Changed(self.tags),
            is_favorite: ActiveValue::Changed(self.is_favorite),
            group_id: ActiveValue::Changed(self.group_id),
            created_at: ActiveValue::Changed(now),
            updated_at: ActiveValue::Changed(now),
            deleted_at: ActiveValue::NotSet,
        }
    }
}

impl UpdateBookmarkRequest {
    /// The staged row `model` with this change laid over it at the time `now`:
    /// the fields that are present are changed, `updated_at` is changed to `now`
    /// whatever else is, and the rest is as in `model`.
    pub open spec fn applied(self, model: ActiveModel, now: Timestamp) -> ActiveModel {
        ActiveModel {
            id: model.id,
            name: match self.name {
                Some(v) => ActiveValue::Changed(v),
                None => model.name,
            },
            url: match self.url {
                Some(v) => ActiveValue::Changed(v),
                None => model.url,
            },
            tags: match self.tags {
                Some(v) => ActiveValue::Changed(v),
                None => model.tags,
            },
            is_favorite: match self.is_favorite {
                Some(v) => ActiveValue::Changed(v),
                None => model.is_favorite,
            },
            group_id: match self.group_id {
                Some(v) => ActiveValue::Changed(Some(v)),
                None => model.group_id,
            },
            created_at: model.created_at,
            updated_at: ActiveValue::Changed(now),
            deleted_at: model.deleted_at,
        }
    }

    pub fn apply_to_model(self, model: ActiveModel, now: Timestamp) -> (r: ActiveModel)
        ensures
            r == self.applied(model, now),
    {
        ActiveModel {
            id: model.id,
            name: match self.name {
                Some(v) => ActiveValue::Changed(v),
                None => model.name,
            },
            url: match self.url {
                Some(v) => ActiveValue::Changed(v),
                None => model.url,
            },
            tags: match self.tags {
                Some(v) => ActiveValue::Changed(v),
                None => model.tags,
            },
            is_favorite: match self.is_favorite {
                Some(v) => ActiveValue::Changed(v),
                None => model.is_favorite,
            },
            group_id: match self.group_id {
                Some(v) => ActiveValue::Changed(Some(v)),
                None => model.group_id,
            },
            created_at: model.created_at,
            updated_at: ActiveValue::Changed(now),
            deleted_at: model.deleted_at,
        }
    }

    /// The change alone as a staged row at the time `now`.
    pub fn into_active_model(self, now: Timestamp) -> (r: ActiveModel)
        ensures
            r == self.applied(ActiveModel::empty(), now),
    {
        self.apply_to_model(ActiveModel::new(), now)
    }

    /// What an update of the bookmark with the key `id` sends to the store at the
    /// time `now`: this change and nothing else.
    pub open spec fn changes(self, id: i32, now: Timestamp) -> ActiveModel {
        self.applied(ActiveModel::empty(), now).with_key(id)
    }
}

} // verus!
