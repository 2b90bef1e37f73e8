//! The service of the users: what a request may ask, and what it is told.

use vstd::prelude::*;

use crate::database::state::State;
use crate::dto::user::{CreateUserDto, UpdateUserDto, UserDto};
use crate::entity::user::{ActiveModel, Model};
use crate::entity::Entity;
use crate::error::{DbError, ServiceError};
use crate::repository::user_repository::UserRepository;
use crate::router::ContextRouter;
use crate::service::required_id;
use crate::table::{find, has_key};
use crate::time::Timestamp;

verus! {

/// The answer for a row that a write returned, or for the error that it met.
pub open spec fn reply(result: Result<Model, DbError>) -> Result<UserDto, ServiceError> {
    match result {
        Ok(row) => Ok(UserDto::of(row)),
        Err(e) => Err(ServiceError::of(e)),
    }
}

/// The answer for a lookup: the row, or that it is not found.
pub open spec fn reply_found(row: Option<Model>) -> Result<UserDto, ServiceError> {
    match row {
        Some(row) => Ok(UserDto::of(row)),
        None => Err(ServiceError::NotFound(DbError::RecordNotFound(Entity::User))),
    }
}

/// The answer for what a lookup found: a row that is missing is not found.
pub fn found(row: Option<Model>) -> (r: Result<UserDto, ServiceError>)
    ensures
        r == reply_found(row),
{
    match row {
        Some(row) => Ok(UserDto::from(row)),
        None => Err(ServiceError::NotFound(DbError::RecordNotFound(Entity::User))),
    }
}

/// The answer to a create at the time `now`.
pub open spec fn created(
    s: State,
    dto: CreateUserDto,
    now: Timestamp,
) -> Result<UserDto, ServiceError> {
    reply(s.user_to_insert(dto.staged(now)))
}

/// The answer to an update at the time `now`: without an id the input is
/// refused before anything is looked up.
pub open spec fn updated(
    s: State,
    dto: UpdateUserDto,
    now: Timestamp,
) -> Result<UserDto, ServiceError> {
    match dto.id {
        None => Err(ServiceError::ValidationError(Entity::User)),
        Some(id) => reply(s.user_to_update(dto.changes(id, now))),
    }
}

/// The store after an update at the time `now`.
pub open spec fn after_update(s: State, dto: UpdateUserDto, now: Timestamp) -> State {
    match dto.id {
        None => s,
        Some(id) => s.update_user(dto.changes(id, now)),
    }
}

/// The rows as callers see them, one for one.
pub open spec fn dtos(rows: Seq<Model>) -> Seq<UserDto> {
    rows.map_values(|row: Model| UserDto::of(row))
}

fn to_dtos(rows: Vec<Model>) -> (out: Vec<UserDto>)
    ensures
        out@ == dtos(rows@),
{
    let mut out: Vec<UserDto> = Vec::new();
    let mut i: usize = 0;
    while i < rows.len()
        invariant
            i <= rows@.len(),
            out@.len() == i,
            forall|j: int| 0 <= j < i ==> #[trigger] out@[j] == UserDto::of(rows@[j]),
        decreases rows@.len() - i,
    {
        out.push(UserDto::from(rows[i].clone()));
        i += 1;
    }
    assert(out@ =~= dtos(rows@));
    out
}

/// What the service of the users does.
pub trait UserService {
    /// Creates a user at the time `now`. What comes back is what was sent,
    /// with the key that the store gave and both timestamps at `now`.
    fn create_user(
        &self,
        ctx: &mut ContextRouter,
        dto: CreateUserDto,
        now: Timestamp,
    ) -> (r: Result<UserDto, ServiceError>)
        ensures
            final(ctx).same_session(*old(ctx)),
            final(ctx).db@ == old(ctx).db@.insert_user(dto.staged(now)),
            r == created(old(ctx).db@, dto, now),
            r is Ok <==> old(ctx).db@.next_user < i32::MAX,
            r is Err ==> final(ctx).db@ == old(ctx).db@,
            r matches Ok(out) ==> {
                &&& out.id == old(ctx).db@.next_user
                &&& out.name == dto.name
                &&& out.email == dto.email
                &&& out.created_at == now
                &&& out.updated_at == now
            },
    ;

    /// The user with the key `id`.
    fn get_user_by_id(&self, ctx: &ContextRouter, id: i32) -> (r: Result<UserDto, ServiceError>)
        ensures
            r == reply_found(find(ctx.db@.users, id)),
    ;

    /// Changes the user that `dto.id` names, at the time `now`. Without an id
    /// nothing is looked up and nothing is written. A field that is absent stays
    /// as it is stored, the key and `created_at` stay in any case, and
    /// `updated_at` becomes `now`: later than before, if the clock has moved on
    /// since the last write.
    fn update_user(
        &self,
        ctx: &mut ContextRouter,
        dto: UpdateUserDto,
        now: Timestamp,
    ) -> (r: Result<UserDto, ServiceError>)
        ensures
            final(ctx).same_session(*old(ctx)),
            r == updated(old(ctx).db@, dto, now),
            final(ctx).db@ == after_update(old(ctx).db@, dto, now),
            r is Ok <==> {
                &&& dto.id matches Some(id)
                &&& has_key(old(ctx).db@.users, id)
            },
            r is Err ==> final(ctx).db@ == old(ctx).db@,
            dto.id matches Some(id) && !has_key(old(ctx).db@.users, id) ==> {
                r == Err::<UserDto, ServiceError>(
                    ServiceError::NotFound(DbError::RecordNotFound(Entity::User)),
                )
            },
            dto.id is None ==> r == Err::<UserDto, ServiceError>(
                ServiceError::ValidationError(Entity::User),
            ) && final(ctx).db@ == old(ctx).db@,
            r matches Ok(out) ==> {
                &&& dto.id == Some(out.id)
                &&& find(old(ctx).db@.users, out.id) matches Some(before)
                &&& out.name == match dto.name {
                    Some(v) => v,
                    None => before.name,
                }
                &&& out.email == match dto.email {
                    Some(v) => v,
                    None => before.email,
                }
                &&& out.created_at == before.created_at
                &&& out.updated_at == now
                &&& before.updated_at.before(now) ==> before.updated_at.before(out.updated_at)
            },
    ;

    /// Deletes the user with the key `id` and what hangs on it. Deleting what is
    /// not there is no error.
    fn delete_user(&self, ctx: &mut ContextRouter, id: i32) -> (r: Result<(), ServiceError>)
        ensures
            final(ctx).same_session(*old(ctx)),
            final(ctx).db@ == old(ctx).db@.delete_user(id),
            find(final(ctx).db@.users, id) is None,
            r is Ok,
    ;

    /// Every user.
    fn list_users(&self, ctx: &ContextRouter) -> (r: Result<Vec<UserDto>, ServiceError>)
        ensures
            r matches Ok(list) && list@ == dtos(ctx.db@.users),
    ;
}

/// The service of the users over a repository.
pub struct UserServiceImpl<R: UserRepository> {
    pub user_repository: R,
}

impl<R: UserRepository> UserServiceImpl<R> {
    pub fn new(user_repository: R) -> (r: UserServiceImpl<R>)
        ensures
            r.user_repository == user_repository,
    {
        UserServiceImpl { user_repository }
    }
}

impl<R: UserRepository> UserService for UserServiceImpl<R> {
    fn create_user(
        &self,
        ctx: &mut ContextRouter,
        dto: CreateUserDto,
        now: Timestamp,
    ) -> (r: Result<UserDto, ServiceError>) {
        proof {
            use_type_invariant(&ctx.db);
        }
        let input = dto.into_active_model(now);
        match self.user_repository.create_user(&mut ctx.db, input) {
            Ok(row) => Ok(UserDto::from(row)),
            Err(e) => Err(ServiceError::from_db_err(e)),
        }
    }

    fn get_user_by_id(&self, ctx: &ContextRouter, id: i32) -> (r: Result<UserDto, ServiceError>) {
        match self.user_repository.get_user_by_id(&ctx.db, id) {
            Ok(row) => found(row),
            Err(e) => Err(ServiceError::from_db_err(e)),
        }
    }

    fn update_user(
        &self,
        ctx: &mut ContextRouter,
        dto: UpdateUserDto,
        now: Timestamp,
    ) -> (r: Result<UserDto, ServiceError>) {
        proof {
            use_type_invariant(&ctx.db);
        }
        let id = match required_id(dto.id, Entity::User) {
            Ok(id) => id,
            Err(e) => {
                return Err(e);
            },
        };
        let input = dto.apply_to_model(ActiveModel::new(), now);
        match self.user_repository.update_user(&mut ctx.db, id, input) {
            Ok(row) => Ok(UserDto::from(row)),
            Err(e) => Err(ServiceError::from_db_err(e)),
        }
    }

    fn delete_user(&self, ctx: &mut ContextRouter, id: i32) -> (r: Result<(), ServiceError>) {
        proof {
            old(ctx).db@.lemma_delete_user_gone(id);
        }
        match self.user_repository.delete_user(&mut ctx.db, id) {
            Ok(()) => Ok(()),
            Err(e) => Err(ServiceError::from_db_err(e)),
        }
    }

    fn list_users(&self, ctx: &ContextRouter) -> (r: Result<Vec<UserDto>, ServiceError>) {
        match self.user_repository.list_users(&ctx.db) {
            Ok(rows) => Ok(to_dtos(rows)),
            Err(e) => Err(ServiceError::from_db_err(e)),
        }
    }
}

} // verus!
