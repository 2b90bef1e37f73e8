//! The procedures of the users.

use vstd::prelude::*;

use crate::database::state::State;
use crate::dto::user::UserDto;
use crate::entity::Entity;
use crate::error::ServiceError;
use crate::repository::user_repository::UserRepositoryImpl;
use crate::router::{
    ContextRouter, Error, ErrorCode, Fault, Input, Operation, Output, OutputView, ProcedureKind,
    ProcedureView, RouterBuilder,
};
use crate::service::user_service::{
    after_update, created, dtos, reply_found, updated, UserService, UserServiceImpl,
};
use crate::table::find;
use crate::time::Timestamp;

verus! {

/// What the procedures of the users ask for.
#[derive(Clone, Copy, Debug, PartialEq, Eq, Structural)]
pub enum UserOp {
    /// `getUsers`: every user.
    GetUsers,
    /// `getUserById`: the user with the id that is sent.
    GetUserById,
    /// `createUser`: creates a user.
    CreateUser,
    /// `updateUser`: changes a user.
    UpdateUser,
    /// `deleteUser`: deletes the user with the id that is sent.
    DeleteUser,
}

/// One user, or the error of the service, as the answer of a procedure.
pub open spec fn one(r: Result<UserDto, ServiceError>) -> Result<OutputView, Error> {
    match r {
        Ok(dto) => Ok(OutputView::User(dto)),
        Err(e) => Err(Error::of(e)),
    }
}

/// What a procedure of the users answers at the time `now`, on the store `s`.
pub open spec fn answer(
    op: UserOp,
    s: State,
    input: Input,
    now: Timestamp,
) -> Result<OutputView, Error> {
    match op {
        UserOp::GetUsers => match input {
            Input::Unit => Ok(OutputView::Users(dtos(s.users))),
            _ => Err(Error::invalid_input()),
        },
        UserOp::GetUserById => match input {
            Input::Id(id) => one(reply_found(find(s.users, id))),
            _ => Err(Error::invalid_input()),
        },
        UserOp::CreateUser => match input {
            Input::CreateUser(dto) => one(created(s, dto, now)),
            _ => Err(Error::invalid_input()),
        },
        UserOp::UpdateUser => match input {
            Input::UpdateUser(dto) => one(updated(s, dto, now)),
            _ => Err(Error::invalid_input()),
        },
        UserOp::DeleteUser => match input {
            Input::Id(_) => Ok(OutputView::Done),
            _ => Err(Error::invalid_input()),
        },
    }
}

/// The store after a procedure of the users has run at the time `now`.
pub open spec fn effect(op: UserOp, s: State, input: Input, now: Timestamp) -> State {
    match op {
        UserOp::CreateUser => match input {
            Input::CreateUser(dto) => s.insert_user(dto.staged(now)),
            _ => s,
        },
        UserOp::UpdateUser => match input {
            Input::UpdateUser(dto) => after_update(s, dto, now),
            _ => s,
        },
        UserOp::DeleteUser => match input {
            Input::Id(id) => s.delete_user(id),
            _ => s,
        },
        _ => s,
    }
}

/// Runs a procedure of the users at the time `now`, on a service that is made
/// for this call.
pub fn handle(
    op: UserOp,
    ctx: &mut ContextRouter,
    input: Input,
    now: Timestamp,
) -> (r: Result<Output, Error>)
    ensures
        final(ctx).same_session(*old(ctx)),
        final(ctx).db@ == effect(op, old(ctx).db@, input, now),
        match r {
            Ok(out) => answer(op, old(ctx).db@, input, now) == Ok::<OutputView, Error>(out@),
            Err(e) => answer(op, old(ctx).db@, input, now) == Err::<OutputView, Error>(e),
        },
{
    let service = UserServiceImpl::new(UserRepositoryImpl::new());
    match op {
        UserOp::GetUsers => match input {
            Input::Unit => match service.list_users(ctx) {
                Ok(list) => Ok(Output::Users(list)),
                Err(e) => Err(Error::from_service(e)),
            },
            _ => Err(Error::bad_input()),
        },
        UserOp::GetUserById => match input {
            Input::Id(id) => match service.get_user_by_id(ctx, id) {
                Ok(dto) => Ok(Output::User(dto)),
                Err(e) => Err(Error::from_service(e)),
            },
            _ => Err(Error::bad_input()),
        },
        UserOp::CreateUser => match input {
            Input::CreateUser(dto) => match service.create_user(ctx, dto, now) {
                Ok(dto) => Ok(Output::User(dto)),
                Err(e) => Err(Error::from_service(e)),
            },
            _ => Err(Error::bad_input()),
        },
        UserOp::UpdateUser => match input {
            Input::UpdateUser(dto) => match service.update_user(ctx, dto, now) {
                Ok(dto) => Ok(Output::User(dto)),
                Err(e) => Err(Error::from_service(e)),
            },
            _ => Err(Error::bad_input()),
        },
        UserOp::DeleteUser => match input {
            Input::Id(id) => match service.delete_user(ctx, id) {
                Ok(()) => Ok(Output::Done),
                Err(e) => Err(Error::from_service(e)),
            },
            _ => Err(Error::bad_input()),
        },
    }
}

/// The procedures of the users, by name.
pub open spec fn procedures() -> Seq<ProcedureView> {
    seq![
        ProcedureView {
            name: "getUsers"@,
            kind: ProcedureKind::Query,
            operation: Operation::User(UserOp::GetUsers),
        },
        ProcedureView {
            name: "getUserById"@,
            kind: ProcedureKind::Query,
            operation: Operation::User(UserOp::GetUserById),
        },
        ProcedureView {
            name: "createUser"@,
            kind: ProcedureKind::Mutation,
            operation: Operation::User(UserOp::CreateUser),
        },
        ProcedureView {
            name: "updateUser"@,
            kind: ProcedureKind::Mutation,
            operation: Operation::User(UserOp::UpdateUser),
        },
        ProcedureView {
            name: "deleteUser"@,
            kind: ProcedureKind::Mutation,
            operation: Operation::User(UserOp::DeleteUser),
        },
    ]
}

/// Builds the table of the procedures of the users.
pub fn create_users_router() -> (r: RouterBuilder)
    ensures
        r@ == procedures(),
{
    let r = RouterBuilder::new()
        .query("getUsers", Operation::User(UserOp::GetUsers))
        .query("getUserById", Operation::User(UserOp::GetUserById))
        .mutation("createUser", Operation::User(UserOp::CreateUser))
        .mutation("updateUser", Operation::User(UserOp::UpdateUser))
        .mutation("deleteUser", Operation::User(UserOp::DeleteUser));
    assert(r@ =~= procedures());
    r
}

/// A query of the users leaves the store as it is.
pub proof fn lemma_queries_read_only(i: int, s: State, input: Input, now: Timestamp)
    requires
        0 <= i < procedures().len(),
        procedures()[i].kind == ProcedureKind::Query,
    ensures
        crate::router::effect(procedures()[i].operation, s, input, now) == s,
{
}

/// An update that does not say which user it is about is a bad request, and
/// writes nothing.
pub proof fn lemma_update_needs_id(s: State, input: Input, now: Timestamp)
    requires
        input matches Input::UpdateUser(dto) && dto.id is None,
    ensures
        answer(UserOp::UpdateUser, s, input, now) == Err::<OutputView, Error>(
            Error {
                code: ErrorCode::BadRequest,
                fault: Fault::Service(ServiceError::ValidationError(Entity::User)),
            },
        ),
        effect(UserOp::UpdateUser, s, input, now) == s,
{
}

/// How long each name is, and with which character it starts.
pub proof fn lemma_names()
    ensures
        procedures()[0].name.len() == 8 && procedures()[0].name[0] == 'g',
        procedures()[1].name.len() == 11 && procedures()[1].name[0] == 'g',
        procedures()[2].name.len() == 10 && procedures()[2].name[0] == 'c',
        procedures()[3].name.len() == 10 && procedures()[3].name[0] == 'u',
        procedures()[4].name.len() == 10 && procedures()[4].name[0] == 'd',
{
    reveal_strlit("getUsers");
    reveal_strlit("getUserById");
    reveal_strlit("createUser");
    reveal_strlit("updateUser");
    reveal_strlit("deleteUser");
}

} // verus!
