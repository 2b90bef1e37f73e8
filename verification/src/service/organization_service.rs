//! The service of the organizations: what a request may ask, and what it is told.

use vstd::prelude::*;

use crate::database::state::State;
use crate::dto::organization::{CreateOrganizationDto, OrganizationDto, UpdateOrganizationDto};
use crate::entity::organization::{ActiveModel, Model};
use crate::entity::Entity;
use crate::error::{DbError, ServiceError};
use crate::repository::organization_repository::OrganizationRepository;
use crate::router::ContextRouter;
use crate::service::required_id;
use crate::table::{find, has_key, owned_by};
use crate::time::Timestamp;

verus! {

/// The answer for a row that a write returned, or for the error that it met.
pub open spec fn reply(result: Result<Model, DbError>) -> Result<OrganizationDto, ServiceError> {
    match result {
        Ok(row) => Ok(OrganizationDto::of(row)),
        Err(e) => Err(ServiceError::of(e)),
    }
}

/// The answer for a lookup: the row, or that it is not found.
pub open spec fn reply_found(row: Option<Model>) -> Result<OrganizationDto, ServiceError> {
    match row {
        Some(row) => Ok(OrganizationDto::of(row)),
        None => Err(ServiceError::NotFound(DbError::RecordNotFound(Entity::Organization))),
    }
}

/// The answer for what a lookup found: a row that is missing is not found.
pub fn found(row: Option<Model>) -> (r: Result<OrganizationDto, ServiceError>)
    ensures
        r == reply_found(row),
{
    match row {
        Some(row) => Ok(OrganizationDto::from(row)),
        None => Err(ServiceError::NotFound(DbError::RecordNotFound(Entity::Organization))),
    }
}

/// The answer to a create at the time `now`.
pub open spec fn created(
    s: State,
    dto: CreateOrganizationDto,
    now: Timestamp,
) -> Result<OrganizationDto, ServiceError> {
    reply(s.organization_to_insert(dto.staged(now)))
}

/// The answer to an update at the time `now`: without an id the input is
/// refused before anything is looked up.
pub open spec fn updated(
    s: State,
    dto: UpdateOrganizationDto,
    now: Timestamp,
) -> Result<OrganizationDto, ServiceError> {
    match dto.id {
        None => Err(ServiceError::ValidationError(Entity::Organization)),
        Some(id) => reply(s.organization_to_update(dto.changes(id, now))),
    }
}

/// The store after an update at the time `now`.
pub open spec fn after_update(s: State, dto: UpdateOrganizationDto, now: Timestamp) -> State {
    match dto.id {
        None => s,
        Some(id) => s.update_organization(dto.changes(id, now)),
    }
}

/// The rows as callers see them, one for one.
pub open spec fn dtos(rows: Seq<Model>) -> Seq<OrganizationDto> {
    rows.map_values(|row: Model| OrganizationDto::of(row))
}

fn to_dtos(rows: Vec<Model>) -> (out: Vec<OrganizationDto>)
    ensures
        out@ == dtos(rows@),
{
    let mut out: Vec<OrganizationDto> = Vec::new();
    let mut i: usize = 0;
    while i < rows.len()
        invariant
            i <= rows@.len(),
            out@.len() == i,
            forall|j: int| 0 <= j < i ==> #[trigger] out@[j] == OrganizationDto::of(rows@[j]),
        decreases rows@.len() - i,
    {
        out.push(OrganizationDto::from(rows[i].clone()));
        i += 1;
    }
    assert(out@ =~= dtos(rows@));
    out
}

/// What the service of the organizations does.
pub trait OrganizationService {
    /// Creates an organization at the time `now`. What comes back is what was sent,
    /// with the key that the store gave and both timestamps at `now`.
    fn create_organization(
        &self,
        ctx: &mut ContextRouter,
        dto: CreateOrganizationDto,
        now: Timestamp,
    ) -> (r: Result<OrganizationDto, ServiceError>)
        ensures
            final(ctx).same_session(*old(ctx)),
            final(ctx).db@ == old(ctx).db@.insert_organization(dto.staged(now)),
            r == created(old(ctx).db@, dto, now),
            r is Ok <==> {
                &&& old(ctx).db@.next_organization < i32::MAX
                &&& has_key(old(ctx).db@.users, dto.user_id)
            },
            r is Err ==> final(ctx).db@ == old(ctx).db@,
            r matches Ok(out) ==> {
                &&& out.id == old(ctx).db@.next_organization
                &&& out.name == dto.name
                &&& out.user_id == dto.user_id
                &&& out.created_at == now
                &&& out.updated_at == now
            },
    ;

    /// The organization with the key `id`.
    fn get_organization_by_id(
        &self,
        ctx: &ContextRouter,
        id: i32,
    ) -> (r: Result<OrganizationDto, ServiceError>)
        ensures
            r == reply_found(find(ctx.db@.organizations, id)),
    ;

    /// Changes the organization that `dto.id` names, at the time `now`. Without an id
    /// nothing is looked up and nothing is written. A field that is absent stays
    /// as it is stored, the key and `created_at` stay in any case, and
    /// `updated_at` becomes `now`: later than before, if the clock has moved on
    /// since the last write.
    fn update_organization(
        &self,
        ctx: &mut ContextRouter,
        dto: UpdateOrganizationDto,
        now: Timestamp,
    ) -> (r: Result<OrganizationDto, ServiceError>)
        ensures
            final(ctx).same_session(*old(ctx)),
            r == updated(old(ctx).db@, dto, now),
            final(ctx).db@ == after_update(old(ctx).db@, dto, now),
            r is Ok <==> {
                &&& dto.id matches Some(id)
                &&& has_key(old(ctx).db@.organizations, id)
                &&& dto.user_id matches Some(parent) ==> has_key(old(ctx).db@.users, parent)
            },
            r is Err ==> final(ctx).db@ == old(ctx).db@,
            dto.id matches Some(id) && !has_key(old(ctx).db@.organizations, id) ==> {
                r == Err::<OrganizationDto, ServiceError>(
                    ServiceError::NotFound(DbError::RecordNotFound(Entity::Organization)),
                )
            },
            dto.id is None ==> r == Err::<OrganizationDto, ServiceError>(
                ServiceError::ValidationError(Entity::Organization),
            ) && final(ctx).db@ == old(ctx).db@,
            r matches Ok(out) ==> {
                &&& dto.id == Some(out.id)
                &&& find(old(ctx).db@.organizations, out.id) matches Some(before)
                &&& out.name == match dto.name {
                    Some(v) => v,
                    None => before.name,
                }
                &&& out.user_id == match dto.user_id {
                    Some(v) => v,
                    None => before.user_id,
                }
                &&& out.created_at == before.created_at
                &&& out.deleted_at == before.deleted_at
                &&& out.updated_at == now
                &&& before.updated_at.before(now) ==> before.updated_at.before(out.updated_at)
            },
    ;

    /// Deletes the organization with the key `id` and what hangs on it. Deleting what is
    /// not there is no error.
    fn delete_organization(&self, ctx: &mut ContextRouter, id: i32) -> (r: Result<(), ServiceError>)
        ensures
            final(ctx).same_session(*old(ctx)),
            final(ctx).db@ == old(ctx).db@.delete_organization(id),
            find(final(ctx).db@.organizations, id) is None,
            r is Ok,
    ;

    /// Every organization.
    fn list_organizations(
        &self,
        ctx: &ContextRouter,
    ) -> (r: Result<Vec<OrganizationDto>, ServiceError>)
        ensures
            r matches Ok(list) && list@ == dtos(ctx.db@.organizations),
    ;

    /// The organizations of one user.
    fn get_organization_by_user_id(
        &self,
        ctx: &ContextRouter,
        user_id: i32,
    ) -> (r: Result<Vec<OrganizationDto>, ServiceError>)
        ensures
            r matches Ok(list) && list@ == dtos(owned_by(ctx.db@.organizations, user_id)),
    ;
}

/// The service of the organizations over a repository.
pub struct OrganizationServiceImpl<R: OrganizationRepository> {
    pub organization_repository: R,
}

impl<R: OrganizationRepository> OrganizationServiceImpl<R> {
    pub fn new(organization_repository: R) -> (r: OrganizationServiceImpl<R>)
        ensures
            r.organization_repository == organization_repository,
    {
        OrganizationServiceImpl { organization_repository }
    }
}

impl<R: OrganizationRepository> OrganizationService for OrganizationServiceImpl<R> {
    fn create_organization(
        &self,
        ctx: &mut ContextRouter,
        dto: CreateOrganizationDto,
        now: Timestamp,
    ) -> (r: Result<OrganizationDto, ServiceError>) {
        proof {
            use_type_invariant(&ctx.db);
        }
        let input = dto.into_active_model(now);
        match self.organization_repository.create_organization(&mut ctx.db, input) {
            Ok(row) => Ok(OrganizationDto::from(row)),
            Err(e) => Err(ServiceError::from_db_err(e)),
        }
    }

    fn get_organization_by_id(
        &self,
        ctx: &ContextRouter,
        id: i32,
    ) -> (r: Result<OrganizationDto, ServiceError>) {
        match self.organization_repository.get_organization_by_id(&ctx.db, id) {
            Ok(row) => found(row),
            Err(e) => Err(ServiceError::from_db_err(e)),
        }
    }

    fn update_organization(
        &self,
        ctx: &mut ContextRouter,
        dto: UpdateOrganizationDto,
        now: Timestamp,
    ) -> (r: Result<OrganizationDto, ServiceError>) {
        proof {
            use_type_invariant(&ctx.db);
        }
        let id = match required_id(dto.id, Entity::Organization) {
            Ok(id) => id,
            Err(e) => {
                return Err(e);
            },
        };
        let input = dto.apply_to_model(ActiveModel::new(), now);
        match self.organization_repository.update_organization(&mut ctx.db, id, input) {
            Ok(row) => Ok(OrganizationDto::from(row)),
            Err(e) => Err(ServiceError::from_db_err(e)),
        }
    }

    fn delete_organization(
        &self,
        ctx: &mut ContextRouter,
        id: i32,
    ) -> (r: Result<(), ServiceError>) {
        proof {
            old(ctx).db@.lemma_delete_organization_gone(id);
        }
        match self.organization_repository.delete_organization(&mut ctx.db, id) {
            Ok(()) => Ok(()),
            Err(e) => Err(ServiceError::from_db_err(e)),
        }
    }

    fn list_organizations(
        &self,
        ctx: &ContextRouter,
    ) -> (r: Result<Vec<OrganizationDto>, ServiceError>) {
        match self.organization_repository.list_organizations(&ctx.db) {
            Ok(rows) => Ok(to_dtos(rows)),
            Err(e) => Err(ServiceError::from_db_err(e)),
        }
    }

    fn get_organization_by_user_id(
        &self,
        ctx: &ContextRouter,
        user_id: i32,
    ) -> (r: Result<Vec<OrganizationDto>, ServiceError>) {
        match self.organization_repository.get_organization_by_user_id(&ctx.db, user_id) {
            Ok(rows) => Ok(to_dtos(rows)),
            Err(e) => Err(ServiceError::from_db_err(e)),
        }
    }
}

} // verus!
