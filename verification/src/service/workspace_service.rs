//! The service of the workspaces: what a request may ask, and what it is told.

use vstd::prelude::*;

use crate::database::state::State;
use crate::dto::workspace::{CreateWorkspaceDto, UpdateWorkspaceDto, WorkspaceDto};
use crate::entity::workspace::{ActiveModel, Model};
use crate::entity::Entity;
use crate::error::{DbError, ServiceError};
use crate::repository::workspace_repository::WorkspaceRepository;
use crate::router::ContextRouter;
use crate::service::required_id;
use crate::table::{find, has_key};
use crate::time::Timestamp;

verus! {

/// The answer for a row that a write returned, or for the error that it met.
pub open spec fn reply(result: Result<Model, DbError>) -> Result<WorkspaceDto, ServiceError> {
    match result {
        Ok(row) => Ok(WorkspaceDto::of(row)),
        Err(e) => Err(ServiceError::of(e)),
    }
}

/// The answer for a lookup: the row, or that it is not found.
pub open spec fn reply_found(row: Option<Model>) -> Result<WorkspaceDto, ServiceError> {
    match row {
        Some(row) => Ok(WorkspaceDto::of(row)),
        None => Err(ServiceError::NotFound(DbError::RecordNotFound(Entity::Workspace))),
    }
}

/// The answer for what a lookup found: a row that is missing is not found.
pub fn found(row: Option<Model>) -> (r: Result<WorkspaceDto, ServiceError>)
    ensures
        r == reply_found(row),
{
    match row {
        Some(row) => Ok(WorkspaceDto::from(row)),
        None => Err(ServiceError::NotFound(DbError::RecordNotFound(Entity::Workspace))),
    }
}

/// The answer to a create at the time `now`.
pub open spec fn created(
    s: State,
    dto: CreateWorkspaceDto,
    now: Timestamp,
) -> Result<WorkspaceDto, ServiceError> {
    reply(s.workspace_to_insert(dto.staged(now)))
}

/// The answer to an update at the time `now`: without an id the input is
/// refused before anything is looked up.
pub open spec fn updated(
    s: State,
    dto: UpdateWorkspaceDto,
    now: Timestamp,
) -> Result<WorkspaceDto, ServiceError> {
    match dto.id {
        None => Err(ServiceError::ValidationError(Entity::Workspace)),
        Some(id) => reply(s.workspace_to_update(dto.changes(id, now))),
    }
}

/// The store after an update at the time `now`.
pub open spec fn after_update(s: State, dto: UpdateWorkspaceDto, now: Timestamp) -> State {
    match dto.id {
        None => s,
        Some(id) => s.update_workspace(dto.changes(id, now)),
    }
}

/// The rows as callers see them, one for one.
pub open spec fn dtos(rows: Seq<Model>) -> Seq<WorkspaceDto> {
    rows.map_values(|row: Model| WorkspaceDto::of(row))
}

fn to_dtos(rows: Vec<Model>) -> (out: Vec<WorkspaceDto>)
    ensures
        out@ == dtos(rows@),
{
    let mut out: Vec<WorkspaceDto> = Vec::new();
    let mut i: usize = 0;
    while i < rows.len()
        invariant
            i <= rows@.len(),
            out@.len() == i,
            forall|j: int| 0 <= j < i ==> #[trigger] out@[j] == WorkspaceDto::of(rows@[j]),
        decreases rows@.len() - i,
    {
        out.push(WorkspaceDto::from(rows[i].clone()));
        i += 1;
    }
    assert(out@ =~= dtos(rows@));
    out
}

/// What the service of the workspaces does.
pub trait WorkspaceService {
    /// Creates a workspace at the time `now`. What comes back is what was sent,
    /// with the key that the store gave and both timestamps at `now`.
    fn create_workspace(
        &self,
        ctx: &mut ContextRouter,
        dto: CreateWorkspaceDto,
        now: Timestamp,
    ) -> (r: Result<WorkspaceDto, ServiceError>)
        ensures
            final(ctx).same_session(*old(ctx)),
            final(ctx).db@ == old(ctx).db@.insert_workspace(dto.staged(now)),
            r == created(old(ctx).db@, dto, now),
            r is Ok <==> {
                &&& old(ctx).db@.next_workspace < i32::MAX
                &&& has_key(old(ctx).db@.organizations, dto.organization_id)
            },
            r is Err ==> final(ctx).db@ == old(ctx).db@,
            r matches Ok(out) ==> {
                &&& out.id == old(ctx).db@.next_workspace
                &&& out.name == dto.name
                &&& out.organization_id == dto.organization_id
                &&& out.created_at == now
                &&& out.updated_at == now
            },
    ;

    /// The workspace with the key `id`.
    fn get_workspace_by_id(
        &self,
        ctx: &ContextRouter,
        id: i32,
    ) -> (r: Result<WorkspaceDto, ServiceError>)
        ensures
            r == reply_found(find(ctx.db@.workspaces, id)),
    ;

    /// Changes the workspace that `dto.id` names, at the time `now`. Without an id
    /// nothing is looked up and nothing is written. A field that is absent stays
    /// as it is stored, the key and `created_at` stay in any case, and
    /// `updated_at` becomes `now`: later than before, if the clock has moved on
    /// since the last write.
    fn update_workspace(
        &self,
        ctx: &mut ContextRouter,
        dto: UpdateWorkspaceDto,
        now: Timestamp,
    ) -> (r: Result<WorkspaceDto, ServiceError>)
        ensures
            final(ctx).same_session(*old(ctx)),
            r == updated(old(ctx).db@, dto, now),
            final(ctx).db@ == after_update(old(ctx).db@, dto, now),
            r is Ok <==> {
                &&& dto.id matches Some(id)
                &&& has_key(old(ctx).db@.workspaces, id)
                &&& dto.organization_id matches Some(parent) ==> has_key(
                    old(ctx).db@.organizations,
                    parent,
                )
            },
            r is Err ==> final(ctx).db@ == old(ctx).db@,
            dto.id matches Some(id) && !has_key(old(ctx).db@.workspaces, id) ==> {
                r == Err::<WorkspaceDto, ServiceError>(
                    ServiceError::NotFound(DbError::RecordNotFound(Entity::Workspace)),
                )
            },
            dto.id is None ==> r == Err::<WorkspaceDto, ServiceError>(
                ServiceError::ValidationError(Entity::Workspace),
            ) && final(ctx).db@ == old(ctx).db@,
            r matches Ok(out) ==> {
                &&& dto.id == Some(out.id)
                &&& find(old(ctx).db@.workspaces, out.id) matches Some(before)
                &&& out.name == match dto.name {
                    Some(v) => v,
                    None => before.name,
                }
                &&& out.organization_id == match dto.organization_id {
                    Some(v) => v,
                    None => before.organization_id,
                }
                &&& out.created_at == before.created_at
                &&& out.deleted_at == before.deleted_at
                &&& out.updated_at == now
                &&& before.updated_at.before(now) ==> before.updated_at.before(out.updated_at)
            },
    ;

    /// Deletes the workspace with the key `id` and what hangs on it. Deleting what is
    /// not there is no error.
    fn delete_workspace(&self, ctx: &mut ContextRouter, id: i32) -> (r: Result<(), ServiceError>)
        ensures
            final(ctx).same_session(*old(ctx)),
            final(ctx).db@ == old(ctx).db@.delete_workspace(id),
            find(final(ctx).db@.workspaces, id) is None,
            r is Ok,
    ;

    /// Every workspace.
    fn list_workspace(&self, ctx: &ContextRouter) -> (r: Result<Vec<WorkspaceDto>, ServiceError>)
        ensures
            r matches Ok(list) && list@ == dtos(ctx.db@.workspaces),
    ;
}

/// The service of the workspaces over a repository.
pub struct WorkspaceServiceImpl<R: WorkspaceRepository> {
    pub workspace_repository: R,
}

impl<R: WorkspaceRepository> WorkspaceServiceImpl<R> {
    pub fn new(workspace_repository: R) -> (r: WorkspaceServiceImpl<R>)
        ensures
            r.workspace_repository == workspace_repository,
    {
        WorkspaceServiceImpl { workspace_repository }
    }
}

impl<R: WorkspaceRepository> WorkspaceService for WorkspaceServiceImpl<R> {
    fn create_workspace(
        &self,
        ctx: &mut ContextRouter,
        dto: CreateWorkspaceDto,
        now: Timestamp,
    ) -> (r: Result<WorkspaceDto, ServiceError>) {
        proof {
            use_type_invariant(&ctx.db);
        }
        let input = dto.into_active_model(now);
        match self.workspace_repository.create_workspace(&mut ctx.db, input) {
            Ok(row) => Ok(WorkspaceDto::from(row)),
            Err(e) => Err(ServiceError::from_db_err(e)),
        }
    }

    fn get_workspace_by_id(
        &self,
        ctx: &ContextRouter,
        id: i32,
    ) -> (r: Result<WorkspaceDto, ServiceError>) {
        match self.workspace_repository.get_workspace_by_id(&ctx.db, id) {
            Ok(row) => found(row),
            Err(e) => Err(ServiceError::from_db_err(e)),
        }
    }

    fn update_workspace(
        &self,
        ctx: &mut ContextRouter,
        dto: UpdateWorkspaceDto,
        now: Timestamp,
    ) -> (r: Result<WorkspaceDto, ServiceError>) {
        proof {
            use_type_invariant(&ctx.db);
        }
        let id = match required_id(dto.id, Entity::Workspace) {
            Ok(id) => id,
            Err(e) => {
                return Err(e);
            },
        };
        let input = dto.apply_to_model(ActiveModel::new(), now);
        match self.workspace_repository.update_workspace(&mut ctx.db, id, input) {
            Ok(row) => Ok(WorkspaceDto::from(row)),
            Err(e) => Err(ServiceError::from_db_err(e)),
        }
    }

    fn delete_workspace(&self, ctx: &mut ContextRouter, id: i32) -> (r: Result<(), ServiceError>) {
        proof {
            old(ctx).db@.lemma_delete_workspace_gone(id);
        }
        match self.workspace_repository.delete_workspace(&mut ctx.db, id) {
            Ok(()) => Ok(()),
            Err(e) => Err(ServiceError::from_db_err(e)),
        }
    }

    fn list_workspace(&self, ctx: &ContextRouter) -> (r: Result<Vec<WorkspaceDto>, ServiceError>) {
        match self.workspace_repository.list_workspace(&ctx.db) {
            Ok(rows) => Ok(to_dtos(rows)),
            Err(e) => Err(ServiceError::from_db_err(e)),
        }
    }
}

} // verus!
