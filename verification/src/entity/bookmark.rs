//! Bookmarks: each belongs to one group.

use vstd::prelude::*;

use crate::entity::{ActiveValue, Owned, Record};
use crate::table::lemma_filter_contains;
use crate::text::{is_substring, text_contains};
use crate::time::Timestamp;

verus! {

/// One row of the bookmark table. A bookmark belongs to one group or to none.
///
/// `deleted_at` could mark a row as deleted without removing it. No service
/// sets it and nothing reads it: a delete removes the row for good, and every
/// row that is stored is live.
#[derive(Debug, PartialEq, Eq)]
pub struct Model {
    pub id: i32,
    pub name: String,
    pub url: String,
    pub tags: String,
    pub is_favorite: bool,
    pub group_id: Option<i32>,
    pub created_at: Timestamp,
    pub updated_at: Timestamp,
    pub deleted_at: Option<Timestamp>,
}

/// A bookmark row staged for an insert or an update.
#[derive(Debug, PartialEq, Eq)]
pub struct ActiveModel {
    pub id: ActiveValue<i32>,
    pub name: ActiveValue<String>,
    pub url: ActiveValue<String>,
    pub tags: ActiveValue<String>,
    pub is_favorite: ActiveValue<bool>,
    pub group_id: ActiveValue<Option<i32>>,
    pub created_at: ActiveValue<Timestamp>,
    pub updated_at: ActiveValue<Timestamp>,
    pub deleted_at: ActiveValue<Option<Timestamp>>,
}

impl Clone for Model {
    fn clone(&self) -> (r: Model)
        ensures
            r == *self,
    {
        Model {
            id: self.id,
            name: self.name.clone(),
            url: self.url.clone(),
            tags: self.tags.clone(),
            is_favorite: self.is_favorite,
            group_id: self.group_id,
            created_at: self.created_at,
            updated_at: self.updated_at,
            deleted_at: self.deleted_at,
        }
    }
}

impl Record for Model {
    open spec fn key(&self) -> i32 {
        self.id
    }

    fn id(&self) -> (r: i32) {
        self.id
    }

    fn duplicate(&self) -> (r: Model) {
        self.clone()
    }
}

impl Owned for Model {
    open spec fn owner(&self) -> Option<i32> {
        self.group_id
    }

    fn owner_id(&self) -> (r: Option<i32>) {
        self.group_id
    }
}

impl Model {
    /// The row as a staged row that changes nothing.
    pub open spec fn unchanged(self) -> ActiveModel {
        ActiveModel {
            id: ActiveValue::Unchanged(self.id),
            name: ActiveValue::Unchanged(self.name),
            url: ActiveValue::Unchanged(self.url),
            tags: ActiveValue::Unchanged(self.tags),
            is_favorite: ActiveValue::Unchanged(self.is_favorite),
            group_id: ActiveValue::Unchanged(self.group_id),
            created_at: ActiveValue::Unchanged(self.created_at),
            updated_at: ActiveValue::Unchanged(self.updated_at),
            deleted_at: ActiveValue::Unchanged(self.deleted_at),
        }
    }

    pub fn into_active_model(self) -> (r: ActiveModel)
        ensures
            r == self.unchanged(),
    {
        ActiveModel {
            id: ActiveValue::Unchanged(self.id),
            name: ActiveValue::Unchanged(self.name),
            url: ActiveValue::Unchanged(self.url),
            tags: ActiveValue::Unchanged(self.tags),
            is_favorite: ActiveValue::Unchanged(self.is_favorite),
            group_id: ActiveValue::Unchanged(self.group_id),
            created_at: ActiveValue::Unchanged(self.created_at),
            updated_at: ActiveValue::Unchanged(self.updated_at),
            deleted_at: ActiveValue::Unchanged(self.deleted_at),
        }
    }
}

impl ActiveModel {
    /// The staged row without a value in any column.
    pub open spec fn empty() -> ActiveModel {
        ActiveModel {
            id: ActiveValue::NotSet,
            name: ActiveValue::NotSet,
            url: ActiveValue::NotSet,
            tags: ActiveValue::NotSet,
            is_favorite: ActiveValue::NotSet,
            group_id: ActiveValue::NotSet,
            created_at: ActiveValue::NotSet,
            updated_at: ActiveValue::NotSet,
            deleted_at: ActiveValue::NotSet,
        }
    }

    pub fn new() -> (r: ActiveModel)
        ensures
            r == ActiveModel::empty(),
    {
        ActiveModel {
            id: ActiveValue::NotSet,
            name: ActiveValue::NotSet,
            url: ActiveValue::NotSet,
            tags: ActiveValue::NotSet,
            is_favorite: ActiveValue::NotSet,
            group_id: ActiveValue::NotSet,
            created_at: ActiveValue::NotSet,
            updated_at: ActiveValue::NotSet,
            deleted_at: ActiveValue::NotSet,
        }
    }

    /// The staged row with `id` as the key of the row that it is about.
    pub open spec fn with_key(self, id: i32) -> ActiveModel {
        ActiveModel { id: ActiveValue::Unchanged(id), ..self }
    }

    /// Every column that may not be null has a value.
    pub open spec fn complete(self) -> bool {
        &&& self.name.known() is Some
        &&& self.url.known() is Some
        &&& self.tags.known() is Some
        &&& self.is_favorite.known() is Some
        &&& self.created_at.known() is Some
        &&& self.updated_at.known() is Some
    }

    pub fn is_complete(&self) -> (r: bool)
        ensures
            r == self.complete(),
    {
        !self.name.is_not_set()
            && !self.url.is_not_set()
            && !self.tags.is_not_set()
            && !self.is_favorite.is_not_set()
            && !self.created_at.is_not_set()
            && !self.updated_at.is_not_set()
    }

    /// The row that an insert writes under the key `id`.
    pub open spec fn row(self, id: i32) -> Model {
        Model {
            id,
            name: self.name.known()->0,
            url: self.url.known()->0,
            tags: self.tags.known()->0,
            is_favorite: self.is_favorite.known()->0,
            group_id: match self.group_id.known() {
                Some(group) => group,
                None => None,
            },
            created_at: self.created_at.known()->0,
            updated_at: self.updated_at.known()->0,
            deleted_at: match self.deleted_at.known() {
                Some(at) => at,
                None => None,
            },
        }
    }

    pub fn into_row(self, id: i32) -> (r: Model)
        requires
            self.complete(),
        ensures
            r == self.row(id),
    {
        Model {
            id,
            name: self.name.unwrap(),
            url: self.url.unwrap(),
            tags: self.tags.unwrap(),
            is_favorite: self.is_favorite.unwrap(),
            group_id: match self.group_id.into_value() {
                Some(group) => group,
                None => None,
            },
            created_at: self.created_at.unwrap(),
            updated_at: self.updated_at.unwrap(),
            deleted_at: match self.deleted_at.into_value() {
                Some(at) => at,
                None => None,
            },
        }
    }

    /// What an update with this staged row leaves of the stored row `row`: the
    /// columns that are changed are written, the others and the key stay.
    pub open spec fn written_over(self, row: Model) -> Model {
        Model {
            id: row.id,
            name: self.name.over(row.name),
            url: self.url.over(row.url),
            tags: self.tags.over(row.tags),
            is_favorite: self.is_favorite.over(row.is_favorite),
            group_id: self.group_id.over(row.group_id),
            created_at: self.created_at.over(row.created_at),
            updated_at: self.updated_at.over(row.updated_at),
            deleted_at: self.deleted_at.over(row.deleted_at),
        }
    }

    pub fn write_over(self, row: Model) -> (r: Model)
        ensures
            r == self.written_over(row),
    {
        Model {
            id: row.id,
            name: self.name.write_over(row.name),
            url: self.url.write_over(row.url),
            tags: self.tags.write_over(row.tags),
            is_favorite: self.is_favorite.write_over(row.is_favorite),
            group_id: self.group_id.write_over(row.group_id),
            created_at: self.created_at.write_over(row.created_at),
            updated_at: self.updated_at.write_over(row.updated_at),
            deleted_at: self.deleted_at.write_over(row.deleted_at),
        }
    }

    /// The staged row `base` with the columns that are changed here laid over it. The
    /// key is that of `base`.
    pub open spec fn laid_over(self, base: ActiveModel) -> ActiveModel {
        ActiveModel {
            id: base.id,
            name: self.name.or(base.name),
            url: self.url.or(base.url),
            tags: self.tags.or(base.tags),
            is_favorite: self.is_favorite.or(base.is_favorite),
            group_id: self.group_id.or(base.group_id),
            created_at: self.created_at.or(base.created_at),
            updated_at: self.updated_at.or(base.updated_at),
            deleted_at: self.deleted_at.or(base.deleted_at),
        }
    }

    pub fn lay_over(self, base: ActiveModel) -> (r: ActiveModel)
        ensures
            r == self.laid_over(base),
    {
        ActiveModel {
            id: base.id,
            name: self.name.or_else(base.name),
            url: self.url.or_else(base.url),
            tags: self.tags.or_else(base.tags),
            is_favorite: self.is_favorite.or_else(base.is_favorite),
            group_id: self.group_id.or_else(base.group_id),
            created_at: self.created_at.or_else(base.created_at),
            updated_at: self.updated_at.or_else(base.updated_at),
            deleted_at: self.deleted_at.or_else(base.deleted_at),
        }
    }
}

impl Model {
    /// The keyword stands in the bookmark's name or in its tags.
    pub open spec fn mentions(self, keyword: Seq<char>) -> bool {
        is_substring(keyword, self.name@) || is_substring(keyword, self.tags@)
    }

    /// One of the keywords stands in the bookmark's name or in its tags.
    pub open spec fn mentions_any(self, keywords: Seq<Seq<char>>) -> bool {
        exists|k: int| 0 <= k < keywords.len() && self.mentions(#[trigger] keywords[k])
    }

    pub fn has_keyword(&self, keyword: &str) -> (r: bool)
        ensures
            r == self.mentions(keyword@),
    {
        text_contains(self.name.as_str(), keyword) || text_contains(self.tags.as_str(), keyword)
    }

    pub fn has_any_keyword(&self, keywords: &Vec<String>) -> (r: bool)
        ensures
            r == self.mentions_any(keywords.deep_view()),
    {
        let ghost views = keywords.deep_view();
        let mut k: usize = 0;
        while k < keywords.len()
            invariant
                k <= keywords@.len(),
                views == keywords.deep_view(),
                forall|j: int| 0 <= j < k ==> !self.mentions(#[trigger] views[j]),
            decreases keywords@.len() - k,
        {
            assert(views[k as int] == keywords@[k as int]@);
            if self.has_keyword(keywords[k].as_str()) {
                return true;
            }
            k += 1;
        }
        false
    }
}

/// The bookmarks that mention one of the keywords.
pub open spec fn mentioning(keywords: Seq<Seq<char>>) -> spec_fn(Model) -> bool {
    |b: Model| b.mentions_any(keywords)
}

/// A search finds the stored bookmarks that mention a keyword, and no others.
/// One keyword, in the name or in the tags, is enough; the others need not
/// occur.
pub proof fn lemma_search_finds(bookmarks: Seq<Model>, keywords: Seq<Seq<char>>)
    ensures
        forall|b: Model| #[trigger]
            bookmarks.filter(mentioning(keywords)).contains(b) <==> bookmarks.contains(b)
                && b.mentions_any(keywords),
        forall|b: Model, k: int|
            bookmarks.contains(b) && 0 <= k < keywords.len() && #[trigger] b.mentions(keywords[k])
                ==> bookmarks.filter(mentioning(keywords)).contains(b),
        keywords.len() == 0 ==> bookmarks.filter(mentioning(keywords)).len() == 0,
{
    lemma_filter_contains(bookmarks, mentioning(keywords));
    let found = bookmarks.filter(mentioning(keywords));
    if keywords.len() == 0 && found.len() > 0 {
        assert(found.contains(found[0]));
    }
}

} // verus!
