//! The repository of the users: the statements that the services run on the store.

use vstd::prelude::*;

use crate::database::Database;
use crate::entity::user::{ActiveModel, Model};
use crate::entity::Entity;
use crate::error::DbError;
use crate::table::find;

verus! {

/// What a repository of users does. A missing row is an absence for the
/// lookup, an error for the update and nothing at all for the delete.
pub trait UserRepository {
    /// Inserts the row and reads it back under the key that the store gave it.
    fn create_user(&self, db: &mut Database, input: ActiveModel) -> (r: Result<Model, DbError>)
        ensures
            final(db)@ == old(db)@.insert_user(input),
            r == old(db)@.user_to_insert(input),
    ;

    /// The user with the key `id`, or `None`.
    fn get_user_by_id(&self, db: &Database, id: i32) -> (r: Result<Option<Model>, DbError>)
        ensures
            r == Ok::<Option<Model>, DbError>(find(db@.users, id)),
    ;

    /// Loads the user with the key `id`, writes the changed columns of `input`
    /// over it, and reads the stored row back.
    fn update_user(
        &self,
        db: &mut Database,
        id: i32,
        input: ActiveModel,
    ) -> (r: Result<Model, DbError>)
        ensures
            final(db)@ == old(db)@.update_user(input.with_key(id)),
            r == old(db)@.user_to_update(input.with_key(id)),
    ;

    /// Deletes the user with the key `id`, if there is one, and what hangs on it.
    fn delete_user(&self, db: &mut Database, id: i32) -> (r: Result<(), DbError>)
        ensures
            final(db)@ == old(db)@.delete_user(id),
            r is Ok,
    ;

    /// Every user that is stored.
    fn list_users(&self, db: &Database) -> (r: Result<Vec<Model>, DbError>)
        ensures
            r matches Ok(rows) && rows@ == db@.users,
    ;
}

/// The repository of the users over the store.
#[derive(Debug, Clone, Copy, PartialEq, Eq)]
pub struct UserRepositoryImpl {}

impl UserRepositoryImpl {
    pub fn new() -> (r: UserRepositoryImpl)
        ensures
            r == (UserRepositoryImpl {}),
    {
        UserRepositoryImpl {}
    }
}

impl UserRepository for UserRepositoryImpl {
    fn create_user(&self, db: &mut Database, input: ActiveModel) -> (r: Result<Model, DbError>) {
        proof {
            use_type_invariant(&*db);
            old(db)@.lemma_insert_user_found(input);
        }
        let id = db.insert_user(input)?;
        match db.find_user_by_id(id) {
            Some(row) => Ok(row),
            None => Err(DbError::RecordNotFound(Entity::User)),
        }
    }

    fn get_user_by_id(&self, db: &Database, id: i32) -> (r: Result<Option<Model>, DbError>) {
        Ok(db.find_user_by_id(id))
    }

    fn update_user(
        &self,
        db: &mut Database,
        id: i32,
        input: ActiveModel,
    ) -> (r: Result<Model, DbError>) {
        proof {
            use_type_invariant(&*db);
            old(db)@.lemma_update_user_found(input, id);
        }
        let existing = match db.find_user_by_id(id) {
            Some(row) => row,
            None => {
                return Err(DbError::RecordNotFound(Entity::User));
            },
        };
        let staged = input.lay_over(existing.into_active_model());
        let updated = db.update_user(staged)?;
        match db.find_user_by_id(updated.id) {
            Some(row) => Ok(row),
            None => Err(DbError::RecordNotFound(Entity::User)),
        }
    }

    fn delete_user(&self, db: &mut Database, id: i32) -> (r: Result<(), DbError>) {
        let _ = db.delete_user(id);
        Ok(())
    }

    fn list_users(&self, db: &Database) -> (r: Result<Vec<Model>, DbError>) {
        Ok(db.all_users())
    }
}

} // verus!
