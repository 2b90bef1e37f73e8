//! The repository of the workspaces: the statements that the services run on the store.

use vstd::prelude::*;

use crate::database::Database;
use crate::entity::workspace::{ActiveModel, Model};
use crate::entity::Entity;
use crate::error::DbError;
use crate::table::find;

verus! {

/// What a repository of workspaces does. A missing row is an absence for the
/// lookup, an error for the update and nothing at all for the delete.
pub trait WorkspaceRepository {
    /// Inserts the row and reads it back under the key that the store gave it.
    fn create_workspace(&self, db: &mut Database, input: ActiveModel) -> (r: Result<Model, DbError>)
        ensures
            final(db)@ == old(db)@.insert_workspace(input),
            r == old(db)@.workspace_to_insert(input),
    ;

    /// The workspace with the key `id`, or `None`.
    fn get_workspace_by_id(&self, db: &Database, id: i32) -> (r: Result<Option<Model>, DbError>)
        ensures
            r == Ok::<Option<Model>, DbError>(find(db@.workspaces, id)),
    ;

    /// Loads the workspace with the key `id`, writes the changed columns of `input`
    /// over it, and reads the stored row back.
    fn update_workspace(
        &self,
        db: &mut Database,
        id: i32,
        input: ActiveModel,
    ) -> (r: Result<Model, DbError>)
        ensures
            final(db)@ == old(db)@.update_workspace(input.with_key(id)),
            r == old(db)@.workspace_to_update(input.with_key(id)),
    ;

    /// Deletes the workspace with the key `id`, if there is one, and what hangs on it.
    fn delete_workspace(&self, db: &mut Database, id: i32) -> (r: Result<(), DbError>)
        ensures
            final(db)@ == old(db)@.delete_workspace(id),
            r is Ok,
    ;

    /// Every workspace that is stored.
    fn list_workspace(&self, db: &Database) -> (r: Result<Vec<Model>, DbError>)
        ensures
            r matches Ok(rows) && rows@ == db@.workspaces,
    ;
}

/// The repository of the workspaces over the store.
#[derive(Debug, Clone, Copy, PartialEq, Eq)]
pub struct WorkspaceRepositoryImpl {}

impl WorkspaceRepositoryImpl {
    pub fn new() -> (r: WorkspaceRepositoryImpl)
        ensures
            r == (WorkspaceRepositoryImpl {}),
    {
        WorkspaceRepositoryImpl {}
    }
}

impl WorkspaceRepository for WorkspaceRepositoryImpl {
    fn create_workspace(
        &self,
        db: &mut Database,
        input: ActiveModel,
    ) -> (r: Result<Model, DbError>) {
        proof {
            use_type_invariant(&*db);
            old(db)@.lemma_insert_workspace_found(input);
        }
        let id = db.insert_workspace(input)?;
        match db.find_workspace_by_id(id) {
            Some(row) => Ok(row),
            None => Err(DbError::RecordNotFound(Entity::Workspace)),
        }
    }

    fn get_workspace_by_id(&self, db: &Database, id: i32) -> (r: Result<Option<Model>, DbError>) {
        Ok(db.find_workspace_by_id(id))
    }

    fn update_workspace(
        &self,
        db: &mut Database,
        id: i32,
        input: ActiveModel,
    ) -> (r: Result<Model, DbError>) {
        proof {
            use_type_invariant(&*db);
            old(db)@.lemma_update_workspace_found(input, id);
        }
        let existing = match db.find_workspace_by_id(id) {
            Some(row) => row,
            None => {
                return Err(DbError::RecordNotFound(Entity::Workspace));
            },
        };
        let staged = input.lay_over(existing.into_active_model());
        let updated = db.update_workspace(staged)?;
        match db.find_workspace_by_id(updated.id) {
            Some(row) => Ok(row),
            None => Err(DbError::RecordNotFound(Entity::Workspace)),
        }
    }

    fn delete_workspace(&self, db: &mut Database, id: i32) -> (r: Result<(), DbError>) {
        let _ = db.delete_workspace(id);
        Ok(())
    }

    fn list_workspace(&self, db: &Database) -> (r: Result<Vec<Model>, DbError>) {
        Ok(db.all_workspaces())
    }
}

} // verus!
