//! The service of the groups: what a request may ask, and what it is told.

use vstd::prelude::*;

use crate::database::state::State;
use crate::dto::groups::{CreateGroupsDto, GroupsDto, UpdateGroupsDto};
use crate::entity::groups::{ActiveModel, Model};
use crate::entity::Entity;
use crate::error::{DbError, ServiceError};
use crate::repository::groups_repository::GroupRepository;
use crate::router::ContextRouter;
use crate::service::required_id;
use crate::table::{find, has_key, owned_by};
use crate::time::Timestamp;

verus! {

/// The answer for a row that a write returned, or for the error that it met.
pub open spec fn reply(result: Result<Model, DbError>) -> Result<GroupsDto, ServiceError> {
    match result {
        Ok(row) => Ok(GroupsDto::of(row)),
        Err(e) => Err(ServiceError::of(e)),
    }
}

/// The answer for a lookup: the row, or that it is not found.
pub open spec fn reply_found(row: Option<Model>) -> Result<GroupsDto, ServiceError> {
    match row {
        Some(row) => Ok(GroupsDto::of(row)),
        None => Err(ServiceError::NotFound(DbError::RecordNotFound(Entity::Group))),
    }
}

/// The answer for what a lookup found: a row that is missing is not found.
pub fn found(row: Option<Model>) -> (r: Result<GroupsDto, ServiceError>)
    ensures
        r == reply_found(row),
{
    match row {
        Some(row) => Ok(GroupsDto::from(row)),
        None => Err(ServiceError::NotFound(DbError::RecordNotFound(Entity::Group))),
    }
}

/// The answer to a create at the time `now`.
pub open spec fn created(
    s: State,
    dto: CreateGroupsDto,
    now: Timestamp,
) -> Result<GroupsDto, ServiceError> {
    reply(s.group_to_insert(dto.staged(now)))
}

/// The answer to an update at the time `now`: without an id the input is
/// refused before anything is looked up.
pub open spec fn updated(
    s: State,
    dto: UpdateGroupsDto,
    now: Timestamp,
) -> Result<GroupsDto, ServiceError> {
    match dto.id {
        None => Err(ServiceError::ValidationError(Entity::Group)),
        Some(id) => reply(s.group_to_update(dto.changes(id, now))),
    }
}

/// The store after an update at the time `now`.
pub open spec fn after_update(s: State, dto: UpdateGroupsDto, now: Timestamp) -> State {
    match dto.id {
        None => s,
        Some(id) => s.update_group(dto.changes(id, now)),
    }
}

/// The rows as callers see them, one for one.
pub open spec fn dtos(rows: Seq<Model>) -> Seq<GroupsDto> {
    rows.map_values(|row: Model| GroupsDto::of(row))
}

fn to_dtos(rows: Vec<Model>) -> (out: Vec<GroupsDto>)
    ensures
        out@ == dtos(rows@),
{
    let mut out: Vec<GroupsDto> = Vec::new();
    let mut i: usize = 0;
    while i < rows.len()
        invariant
            i <= rows@.len(),
            out@.len() == i,
            forall|j: int| 0 <= j < i ==> #[trigger] out@[j] == GroupsDto::of(rows@[j]),
        decreases rows@.len() - i,
    {
        out.push(GroupsDto::from(rows[i].clone()));
        i += 1;
    }
    assert(out@ =~= dtos(rows@));
    out
}

/// What the service of the groups does.
pub trait GroupService {
    /// Creates a group at the time `now`. What comes back is what was sent,
    /// with the key that the store gave and both timestamps at `now`.
    fn create_group(
        &self,
        ctx: &mut ContextRouter,
        dto: CreateGroupsDto,
        now: Timestamp,
    ) -> (r: Result<GroupsDto, ServiceError>)
        ensures
            final(ctx).same_session(*old(ctx)),
            final(ctx).db@ == old(ctx).db@.insert_group(dto.staged(now)),
            r == created(old(ctx).db@, dto, now),
            r is Ok <==> {
                &&& old(ctx).db@.next_group < i32::MAX
                &&& has_key(old(ctx).db@.workspaces, dto.workspace_id)
            },
            r is Err ==> final(ctx).db@ == old(ctx).db@,
            r matches Ok(out) ==> {
                &&& out.id == old(ctx).db@.next_group
                &&& out.name == dto.name
                &&& out.workspace_id == dto.workspace_id
                &&& out.created_at == now
                &&& out.updated_at == now
            },
    ;

    /// The group with the key `id`.
    fn get_group_by_id(&self, ctx: &ContextRouter, id: i32) -> (r: Result<GroupsDto, ServiceError>)
        ensures
            r == reply_found(find(ctx.db@.groups, id)),
    ;

    /// Changes the group that `dto.id` names, at the time `now`. Without an id
    /// nothing is looked up and nothing is written. A field that is absent stays
    /// as it is stored, the key and `created_at` stay in any case, and
    /// `updated_at` becomes `now`: later than before, if the clock has moved on
    /// since the last write.
    fn update_group(
        &self,
        ctx: &mut ContextRouter,
        dto: UpdateGroupsDto,
        now: Timestamp,
    ) -> (r: Result<GroupsDto, ServiceError>)
        ensures
            final(ctx).same_session(*old(ctx)),
            r == updated(old(ctx).db@, dto, now),
            final(ctx).db@ == after_update(old(ctx).db@, dto, now),
            r is Ok <==> {
                &&& dto.id matches Some(id)
                &&& has_key(old(ctx).db@.groups, id)
                &&& dto.workspace_id matches Some(parent) ==> has_key(
                    old(ctx).db@.workspaces,
                    parent,
                )
            },
            r is Err ==> final(ctx).db@ == old(ctx).db@,
            dto.id matches Some(id) && !has_key(old(ctx).db@.groups, id) ==> {
                r == Err::<GroupsDto, ServiceError>(
                    ServiceError::NotFound(DbError::RecordNotFound(Entity::Group)),
                )
            },
            dto.id is None ==> r == Err::<GroupsDto, ServiceError>(
                ServiceError::ValidationError(Entity::Group),
            ) && final(ctx).db@ == old(ctx).db@,
            r matches Ok(out) ==> {
                &&& dto.id == Some(out.id)
                &&& find(old(ctx).db@.groups, out.id) matches Some(before)
                &&& out.name == match dto.name {
                    Some(v) => v,
                    None => before.name,
                }
                &&& out.workspace_id == match dto.workspace_id {
                    Some(v) => v,
                    None => before.workspace_id,
                }
                &&& out.created_at == before.created_at
                &&& out.updated_at == now
                &&& before.updated_at.before(now) ==> before.updated_at.before(out.updated_at)
            },
    ;

    /// Deletes the group with the key `id` and what hangs on it. Deleting what is
    /// not there is no error.
    fn delete_group(&self, ctx: &mut ContextRouter, id: i32) -> (r: Result<(), ServiceError>)
        ensures
            final(ctx).same_session(*old(ctx)),
            final(ctx).db@ == old(ctx).db@.delete_group(id),
            find(final(ctx).db@.groups, id) is None,
            r is Ok,
    ;

    /// Every group.
    fn list_groups(&self, ctx: &ContextRouter) -> (r: Result<Vec<GroupsDto>, ServiceError>)
        ensures
            r matches Ok(list) && list@ == dtos(ctx.db@.groups),
    ;

    /// The groups of one workspace.
    fn list_belonged_groups(
        &self,
        ctx: &ContextRouter,
        workspace_id: i32,
    ) -> (r: Result<Vec<GroupsDto>, ServiceError>)
        ensures
            r matches Ok(list) && list@ == dtos(owned_by(ctx.db@.groups, workspace_id)),
    ;
}

/// The service of the groups over a repository.
pub struct GroupsServiceImpl<R: GroupRepository> {
    pub groups_repository: R,
}

impl<R: GroupRepository> GroupsServiceImpl<R> {
    pub fn new(groups_repository: R) -> (r: GroupsServiceImpl<R>)
        ensures
            r.groups_repository == groups_repository,
    {
        GroupsServiceImpl { groups_repository }
    }
}

impl<R: GroupRepository> GroupService for GroupsServiceImpl<R> {
    fn create_group(
        &self,
        ctx: &mut ContextRouter,
        dto: CreateGroupsDto,
        now: Timestamp,
    ) -> (r: Result<GroupsDto, ServiceError>) {
        proof {
            use_type_invariant(&ctx.db);
        }
        let input = dto.into_active_model(now);
        match self.groups_repository.create_group(&mut ctx.db, input) {
            Ok(row) => Ok(GroupsDto::from(row)),
            Err(e) => Err(ServiceError::from_db_err(e)),
        }
    }

    fn get_group_by_id(
        &self,
        ctx: &ContextRouter,
        id: i32,
    ) -> (r: Result<GroupsDto, ServiceError>) {
        match self.groups_repository.get_group_by_id(&ctx.db, id) {
            Ok(row) => found(row),
            Err(e) => Err(ServiceError::from_db_err(e)),
        }
    }

    fn update_group(
        &self,
        ctx: &mut ContextRouter,
        dto: UpdateGroupsDto,
        now: Timestamp,
    ) -> (r: Result<GroupsDto, ServiceError>) {
        proof {
            use_type_invariant(&ctx.db);
        }
        let id = match required_id(dto.id, Entity::Group) {
            Ok(id) => id,
            Err(e) => {
                return Err(e);
            },
        };
        let input = dto.apply_to_model(ActiveModel::new(), now);
        match self.groups_repository.update_group(&mut ctx.db, id, input) {
            Ok(row) => Ok(GroupsDto::from(row)),
            Err(e) => Err(ServiceError::from_db_err(e)),
        }
    }

    fn delete_group(&self, ctx: &mut ContextRouter, id: i32) -> (r: Result<(), ServiceError>) {
        proof {
            old(ctx).db@.lemma_delete_group_gone(id);
        }
        match self.groups_repository.delete_group(&mut ctx.db, id) {
            Ok(()) => Ok(()),
            Err(e) => Err(ServiceError::from_db_err(e)),
        }
    }

    fn list_groups(&self, ctx: &ContextRouter) -> (r: Result<Vec<GroupsDto>, ServiceError>) {
        match self.groups_repository.list_groups(&ctx.db) {
            Ok(rows) => Ok(to_dtos(rows)),
            Err(e) => Err(ServiceError::from_db_err(e)),
        }
    }

    fn list_belonged_groups(
        &self,
        ctx: &ContextRouter,
        workspace_id: i32,
    ) -> (r: Result<Vec<GroupsDto>, ServiceError>) {
        match self.groups_repository.find_by_workspace_id(&ctx.db, workspace_id) {
            Ok(rows) => Ok(to_dtos(rows)),
            Err(e) => Err(ServiceError::from_db_err(e)),
        }
    }
}

} // verus!
