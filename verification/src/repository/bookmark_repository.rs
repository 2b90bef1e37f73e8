//! The repository of the bookmarks: the statements that the services run on the store.

use vstd::prelude::*;

use crate::database::Database;
use crate::entity::bookmark::{mentioning, ActiveModel, Model};
use crate::entity::Entity;
use crate::error::DbError;
use crate::table::{find, owned_by};
use crate::text::{keywords, split_keywords};

verus! {

/// What a repository of bookmarks does. A missing row is an absence for the
/// lookup, an error for the update and nothing at all for the delete.
pub trait BookmarkRepository {
    /// Inserts the row and reads it back under the key that the store gave it.
    fn create(&self, db: &mut Database, input: ActiveModel) -> (r: Result<Model, DbError>)
        ensures
            final(db)@ == old(db)@.insert_bookmark(input),
            r == old(db)@.bookmark_to_insert(input),
    ;

    /// The bookmark with the key `id`, or `None`.
    fn find_by_id(&self, db: &Database, id: i32) -> (r: Result<Option<Model>, DbError>)
        ensures
            r == Ok::<Option<Model>, DbError>(find(db@.bookmarks, id)),
    ;

    /// Loads the bookmark with the key `id`, writes the changed columns of `input`
    /// over it, and reads the stored row back.
    fn update(&self, db: &mut Database, id: i32, input: ActiveModel) -> (r: Result<Model, DbError>)
        ensures
            final(db)@ == old(db)@.update_bookmark(input.with_key(id)),
            r == old(db)@.bookmark_to_update(input.with_key(id)),
    ;

    /// Deletes the bookmark with the key `id`, if there is one, and what hangs on it.
    fn delete(&self, db: &mut Database, id: i32) -> (r: Result<(), DbError>)
        ensures
            final(db)@ == old(db)@.delete_bookmark(id),
            r is Ok,
    ;

    /// Every bookmark that is stored.
    fn find_all(&self, db: &Database) -> (r: Result<Vec<Model>, DbError>)
        ensures
            r matches Ok(rows) && rows@ == db@.bookmarks,
    ;

    /// The bookmarks that mention a keyword of the query in their name or in
    /// their tags. One keyword in one of the two is enough; a query without
    /// keywords finds nothing.
    fn search(&self, db: &Database, query: &str) -> (r: Result<Vec<Model>, DbError>)
        ensures
            r matches Ok(rows) && rows@ == db@.bookmarks.filter(mentioning(keywords(query@))),
    ;

    /// The bookmarks of one group.
    fn find_by_group_id(&self, db: &Database, group_id: i32) -> (r: Result<Vec<Model>, DbError>)
        ensures
            r matches Ok(rows) && rows@ == owned_by(db@.bookmarks, group_id),
    ;
}

/// The repository of the bookmarks over the store.
#[derive(Debug, Clone, Copy, PartialEq, Eq)]
pub struct BookmarkRepositoryImpl {}

impl BookmarkRepositoryImpl {
    pub fn new() -> (r: BookmarkRepositoryImpl)
        ensures
            r == (BookmarkRepositoryImpl {}),
    {
        BookmarkRepositoryImpl {}
    }
}

impl BookmarkRepository for BookmarkRepositoryImpl {
    fn create(&self, db: &mut Database, input: ActiveModel) -> (r: Result<Model, DbError>) {
        proof {
            use_type_invariant(&*db);
            old(db)@.lemma_insert_bookmark_found(input);
        }
        let id = db.insert_bookmark(input)?;
        match db.find_bookmark_by_id(id) {
            Some(row) => Ok(row),
            None => Err(DbError::RecordNotFound(Entity::Bookmark)),
        }
    }

    fn find_by_id(&self, db: &Database, id: i32) -> (r: Result<Option<Model>, DbError>) {
        Ok(db.find_bookmark_by_id(id))
    }

    fn update(
        &self,
        db: &mut Database,
        id: i32,
        input: ActiveModel,
    ) -> (r: Result<Model, DbError>) {
        proof {
            use_type_invariant(&*db);
            old(db)@.lemma_update_bookmark_found(input, id);
        }
        let existing = match db.find_bookmark_by_id(id) {
            Some(row) => row,
            None => {
                return Err(DbError::RecordNotFound(Entity::Bookmark));
            },
        };
        let staged = input.lay_over(existing.into_active_model());
        let updated = db.update_bookmark(staged)?;
        match db.find_bookmark_by_id(updated.id) {
            Some(row) => Ok(row),
            None => Err(DbError::RecordNotFound(Entity::Bookmark)),
        }
    }

    fn delete(&self, db: &mut Database, id: i32) -> (r: Result<(), DbError>) {
        let _ = db.delete_bookmark(id);
        Ok(())
    }

    fn find_all(&self, db: &Database) -> (r: Result<Vec<Model>, DbError>) {
        Ok(db.all_bookmarks())
    }

    fn search(&self, db: &Database, query: &str) -> (r: Result<Vec<Model>, DbError>) {
        let words = split_keywords(query);
        Ok(db.bookmarks_mentioning(&words))
    }

    fn find_by_group_id(&self, db: &Database, group_id: i32) -> (r: Result<Vec<Model>, DbError>) {
        Ok(db.bookmarks_of_group(group_id))
    }
}

} // verus!
