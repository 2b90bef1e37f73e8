//! The repository of the organizations: the statements that the services run on the store.

use vstd::prelude::*;

use crate::database::Database;
use crate::entity::organization::{ActiveModel, Model};
use crate::entity::Entity;
use crate::error::DbError;
use crate::table::{find, owned_by};

verus! {

/// What a repository of organizations does. A missing row is an absence for the
/// lookup, an error for the update and nothing at all for the delete.
pub trait OrganizationRepository {
    /// Inserts the row and reads it back under the key that the store gave it.
    fn create_organization(
        &self,
        db: &mut Database,
        input: ActiveModel,
    ) -> (r: Result<Model, DbError>)
        ensures
            final(db)@ == old(db)@.insert_organization(input),
            r == old(db)@.organization_to_insert(input),
    ;

    /// The organization with the key `id`, or `None`.
    fn get_organization_by_id(&self, db: &Database, id: i32) -> (r: Result<Option<Model>, DbError>)
        ensures
            r == Ok::<Option<Model>, DbError>(find(db@.organizations, id)),
    ;

    /// Loads the organization with the key `id`, writes the changed columns of `input`
    /// over it, and reads the stored row back.
    fn update_organization(
        &self,
        db: &mut Database,
        id: i32,
        input: ActiveModel,
    ) -> (r: Result<Model, DbError>)
        ensures
            final(db)@ == old(db)@.update_organization(input.with_key(id)),
            r == old(db)@.organization_to_update(input.with_key(id)),
    ;

    /// Deletes the organization with the key `id`, if there is one, and what hangs on it.
    fn delete_organization(&self, db: &mut Database, id: i32) -> (r: Result<(), DbError>)
        ensures
            final(db)@ == old(db)@.delete_organization(id),
            r is Ok,
    ;

    /// Every organization that is stored.
    fn list_organizations(&self, db: &Database) -> (r: Result<Vec<Model>, DbError>)
        ensures
            r matches Ok(rows) && rows@ == db@.organizations,
    ;

    /// The organizations of one user.
    fn get_organization_by_user_id(
        &self,
        db: &Database,
        user_id: i32,
    ) -> (r: Result<Vec<Model>, DbError>)
        ensures
            r matches Ok(rows) && rows@ == owned_by(db@.organizations, user_id),
    ;
}

/// The repository of the organizations over the store.
#[derive(Debug, Clone, Copy, PartialEq, Eq)]
pub struct OrganizationRepositoryImpl {}

impl OrganizationRepositoryImpl {
    pub fn new() -> (r: OrganizationRepositoryImpl)
        ensures
            r == (OrganizationRepositoryImpl {}),
    {
        OrganizationRepositoryImpl {}
    }
}

impl OrganizationRepository for OrganizationRepositoryImpl {
    fn create_organization(
        &self,
        db: &mut Database,
        input: ActiveModel,
    ) -> (r: Result<Model, DbError>) {
        proof {
            use_type_invariant(&*db);
            old(db)@.lemma_insert_organization_found(input);
        }
        let id = db.insert_organization(input)?;
        match db.find_organization_by_id(id) {
            Some(row) => Ok(row),
            None => Err(DbError::RecordNotFound(Entity::Organization)),
        }
    }

    fn get_organization_by_id(
        &self,
        db: &Database,
        id: i32,
    ) -> (r: Result<Option<Model>, DbError>) {
        Ok(db.find_organization_by_id(id))
    }

    fn update_organization(
        &self,
        db: &mut Database,
        id: i32,
        input: ActiveModel,
    ) -> (r: Result<Model, DbError>) {
        proof {
            use_type_invariant(&*db);
            old(db)@.lemma_update_organization_found(input, id);
        }
        let existing = match db.find_organization_by_id(id) {
            Some(row) => row,
            None => {
                return Err(DbError::RecordNotFound(Entity::Organization));
            },
        };
        let staged = input.lay_over(existing.into_active_model());
        let updated = db.update_organization(staged)?;
        match db.find_organization_by_id(updated.id) {
            Some(row) => Ok(row),
            None => Err(DbError::RecordNotFound(Entity::Organization)),
        }
    }

    fn delete_organization(&self, db: &mut Database, id: i32) -> (r: Result<(), DbError>) {
        let _ = db.delete_organization(id);
        Ok(())
    }

    fn list_organizations(&self, db: &Database) -> (r: Result<Vec<Model>, DbError>) {
        Ok(db.all_organizations())
    }

    fn get_organization_by_user_id(
        &self,
        db: &Database,
        user_id: i32,
    ) -> (r: Result<Vec<Model>, DbError>) {
        Ok(db.organizations_of_user(user_id))
    }
}

} // verus!
