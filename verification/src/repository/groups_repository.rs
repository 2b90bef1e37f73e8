//! The repository of the groups: the statements that the services run on the store.

use vstd::prelude::*;

use crate::database::Database;
use crate::entity::groups::{ActiveModel, Model};
use crate::entity::Entity;
use crate::error::DbError;
use crate::table::{find, owned_by};

verus! {

/// What a repository of groups does. A missing row is an absence for the
/// lookup, an error for the update and nothing at all for the delete.
pub trait GroupRepository {
    /// Inserts the row and reads it back under the key that the store gave it.
    fn create_group(&self, db: &mut Database, input: ActiveModel) -> (r: Result<Model, DbError>)
        ensures
            final(db)@ == old(db)@.insert_group(input),
            r == old(db)@.group_to_insert(input),
    ;

    /// The group with the key `id`, or `None`.
    fn get_group_by_id(&self, db: &Database, id: i32) -> (r: Result<Option<Model>, DbError>)
        ensures
            r == Ok::<Option<Model>, DbError>(find(db@.groups, id)),
    ;

    /// Loads the group with the key `id`, writes the changed columns of `input`
    /// over it, and reads the stored row back.
    fn update_group(
        &self,
        db: &mut Database,
        id: i32,
        input: ActiveModel,
    ) -> (r: Result<Model, DbError>)
        ensures
            final(db)@ == old(db)@.update_group(input.with_key(id)),
            r == old(db)@.group_to_update(input.with_key(id)),
    ;

    /// Deletes the group with the key `id`, if there is one, and what hangs on it.
    fn delete_group(&self, db: &mut Database, id: i32) -> (r: Result<(), DbError>)
        ensures
            final(db)@ == old(db)@.delete_group(id),
            r is Ok,
    ;

    /// Every group that is stored.
    fn list_groups(&self, db: &Database) -> (r: Result<Vec<Model>, DbError>)
        ensures
            r matches Ok(rows) && rows@ == db@.groups,
    ;

    /// The groups of one workspace.
    fn find_by_workspace_id(
        &self,
        db: &Database,
        workspace_id: i32,
    ) -> (r: Result<Vec<Model>, DbError>)
        ensures
            r matches Ok(rows) && rows@ == owned_by(db@.groups, workspace_id),
    ;

    /// The groups of one workspace, as far as that workspace belongs to the
    /// organization that the caller names: a caller who holds the key of a
    /// workspace of another organization gets nothing.
    fn find_belonged_groups(
        &self,
        db: &Database,
        workspace_id: i32,
        organization_id: i32,
    ) -> (r: Result<Vec<Model>, DbError>)
        ensures
            r matches Ok(rows) && rows@ == db@.belonged_groups(workspace_id, organization_id),
    ;
}

/// The repository of the groups over the store.
#[derive(Debug, Clone, Copy, PartialEq, Eq)]
pub struct GroupRepositoryImpl {}

impl GroupRepositoryImpl {
    pub fn new() -> (r: GroupRepositoryImpl)
        ensures
            r == (GroupRepositoryImpl {}),
    {
        GroupRepositoryImpl {}
    }
}

impl GroupRepository for GroupRepositoryImpl {
    fn create_group(&self, db: &mut Database, input: ActiveModel) -> (r: Result<Model, DbError>) {
        proof {
            use_type_invariant(&*db);
            old(db)@.lemma_insert_group_found(input);
        }
        let id = db.insert_group(input)?;
        match db.find_group_by_id(id) {
            Some(row) => Ok(row),
            None => Err(DbError::RecordNotFound(Entity::Group)),
        }
    }

    fn get_group_by_id(&self, db: &Database, id: i32) -> (r: Result<Option<Model>, DbError>) {
        Ok(db.find_group_by_id(id))
    }

    fn update_group(
        &self,
        db: &mut Database,
        id: i32,
        input: ActiveModel,
    ) -> (r: Result<Model, DbError>) {
        proof {
            use_type_invariant(&*db);
            old(db)@.lemma_update_group_found(input, id);
        }
        let existing = match db.find_group_by_id(id) {
            Some(row) => row,
            None => {
                return Err(DbError::RecordNotFound(Entity::Group));
            },
        };
        let staged = input.lay_over(existing.into_active_model());
        let updated = db.update_group(staged)?;
        match db.find_group_by_id(updated.id) {
            Some(row) => Ok(row),
            None => Err(DbError::RecordNotFound(Entity::Group)),
        }
    }

    fn delete_group(&self, db: &mut Database, id: i32) -> (r: Result<(), DbError>) {
        let _ = db.delete_group(id);
        Ok(())
    }

    fn list_groups(&self, db: &Database) -> (r: Result<Vec<Model>, DbError>) {
        Ok(db.all_groups())
    }

    fn find_by_workspace_id(
        &self,
        db: &Database,
        workspace_id: i32,
    ) -> (r: Result<Vec<Model>, DbError>) {
        Ok(db.groups_of_workspace(workspace_id))
    }

    fn find_belonged_groups(
        &self,
        db: &Database,
        workspace_id: i32,
        organization_id: i32,
    ) -> (r: Result<Vec<Model>, DbError>) {
        Ok(db.belonged_groups(workspace_id, organization_id))
    }
}

} // verus!
