//! The procedures of the groups.

use vstd::prelude::*;

use crate::database::state::State;
use crate::dto::groups::GroupsDto;
use crate::entity::Entity;
use crate::error::ServiceError;
use crate::repository::groups_repository::GroupRepositoryImpl;
use crate::router::{
    ContextRouter, Error, ErrorCode, Fault, Input, Operation, Output, OutputView, ProcedureKind,
    ProcedureView, RouterBuilder,
};
use crate::service::group_service::{
    after_update, created, dtos, reply_found, updated, GroupService, GroupsServiceImpl,
};
use crate::table::{find, owned_by};
use crate::time::Timestamp;

verus! {

/// What the procedures of the groups ask for.
#[derive(Clone, Copy, Debug, PartialEq, Eq, Structural)]
pub enum GroupOp {
    /// `getGroups`: every group.
    GetGroups,
    /// `getGroupById`: the group with the id that is sent.
    GetGroupById,
    /// `getBelongedGroups`: the groups of the parent whose id is sent.
    GetBelongedGroups,
    /// `createGroups`: creates a group.
    CreateGroups,
    /// `updateGroup`: changes a group.
    UpdateGroup,
    /// `deleteGroup`: deletes the group with the id that is sent.
    DeleteGroup,
}

/// One group, or the error of the service, as the answer of a procedure.
pub open spec fn one(r: Result<GroupsDto, ServiceError>) -> Result<OutputView, Error> {
    match r {
        Ok(dto) => Ok(OutputView::Group(dto)),
        Err(e) => Err(Error::of(e)),
    }
}

/// What a procedure of the groups answers at the time `now`, on the store `s`.
pub open spec fn answer(
    op: GroupOp,
    s: State,
    input: Input,
    now: Timestamp,
) -> Result<OutputView, Error> {
    match op {
        GroupOp::GetGroups => match input {
            Input::Unit => Ok(OutputView::Groups(dtos(s.groups))),
            _ => Err(Error::invalid_input()),
        },
        GroupOp::GetGroupById => match input {
            Input::Id(id) => one(reply_found(find(s.groups, id))),
            _ => Err(Error::invalid_input()),
        },
        GroupOp::GetBelongedGroups => match input {
            Input::Id(id) => Ok(OutputView::Groups(dtos(owned_by(s.groups, id)))),
            _ => Err(Error::invalid_input()),
        },
        GroupOp::CreateGroups => match input {
            Input::CreateGroup(dto) => one(created(s, dto, now)),
            _ => Err(Error::invalid_input()),
        },
        GroupOp::UpdateGroup => match input {
            Input::UpdateGroup(dto) => one(updated(s, dto, now)),
            _ => Err(Error::invalid_input()),
        },
        GroupOp::DeleteGroup => match input {
            Input::Id(_) => Ok(OutputView::Done),
            _ => Err(Error::invalid_input()),
        },
    }
}

/// The store after a procedure of the groups has run at the time `now`.
pub open spec fn effect(op: GroupOp, s: State, input: Input, now: Timestamp) -> State {
    match op {
        GroupOp::CreateGroups => match input {
            Input::CreateGroup(dto) => s.insert_group(dto.staged(now)),
            _ => s,
        },
        GroupOp::UpdateGroup => match input {
            Input::UpdateGroup(dto) => after_update(s, dto, now),
            _ => s,
        },
        GroupOp::DeleteGroup => match input {
            Input::Id(id) => s.delete_group(id),
            _ => s,
        },
        _ => s,
    }
}

/// Runs a procedure of the groups at the time `now`, on a service that is made
/// for this call.
pub fn handle(
    op: GroupOp,
    ctx: &mut ContextRouter,
    input: Input,
    now: Timestamp,
) -> (r: Result<Output, Error>)
    ensures
        final(ctx).same_session(*old(ctx)),
        final(ctx).db@ == effect(op, old(ctx).db@, input, now),
        match r {
            Ok(out) => answer(op, old(ctx).db@, input, now) == Ok::<OutputView, Error>(out@),
            Err(e) => answer(op, old(ctx).db@, input, now) == Err::<OutputView, Error>(e),
        },
{
    let service = GroupsServiceImpl::new(GroupRepositoryImpl::new());
    match op {
        GroupOp::GetGroups => match input {
            Input::Unit => match service.list_groups(ctx) {
                Ok(list) => Ok(Output::Groups(list)),
                Err(e) => Err(Error::from_service(e)),
            },
            _ => Err(Error::bad_input()),
        },
        GroupOp::GetGroupById => match input {
            Input::Id(id) => match service.get_group_by_id(ctx, id) {
                Ok(dto) => Ok(Output::Group(dto)),
                Err(e) => Err(Error::from_service(e)),
            },
            _ => Err(Error::bad_input()),
        },
        GroupOp::GetBelongedGroups => match input {
            Input::Id(id) => match service.list_belonged_groups(ctx, id) {
                Ok(list) => Ok(Output::Groups(list)),
                Err(e) => Err(Error::from_service(e)),
            },
            _ => Err(Error::bad_input()),
        },
        GroupOp::CreateGroups => match input {
            Input::CreateGroup(dto) => match service.create_group(ctx, dto, now) {
                Ok(dto) => Ok(Output::Group(dto)),
                Err(e) => Err(Error::from_service(e)),
            },
            _ => Err(Error::bad_input()),
        },
        GroupOp::UpdateGroup => match input {
            Input::UpdateGroup(dto) => match service.update_group(ctx, dto, now) {
                Ok(dto) => Ok(Output::Group(dto)),
                Err(e) => Err(Error::from_service(e)),
            },
            _ => Err(Error::bad_input()),
        },
        GroupOp::DeleteGroup => match input {
            Input::Id(id) => match service.delete_group(ctx, id) {
                Ok(()) => Ok(Output::Done),
                Err(e) => Err(Error::from_service(e)),
            },
            _ => Err(Error::bad_input()),
        },
    }
}

/// The procedures of the groups, by name.
pub open spec fn procedures() -> Seq<ProcedureView> {
    seq![
        ProcedureView {
            name: "getGroups"@,
            kind: ProcedureKind::Query,
            operation: Operation::Group(GroupOp::GetGroups),
        },
        ProcedureView {
            name: "getGroupById"@,
            kind: ProcedureKind::Query,
            operation: Operation::Group(GroupOp::GetGroupById),
        },
        ProcedureView {
            name: "getBelongedGroups"@,
            kind: ProcedureKind::Query,
            operation: Operation::Group(GroupOp::GetBelongedGroups),
        },
        ProcedureView {
            name: "createGroups"@,
            kind: ProcedureKind::Mutation,
            operation: Operation::Group(GroupOp::CreateGroups),
        },
        ProcedureView {
            name: "updateGroup"@,
            kind: ProcedureKind::Mutation,
            operation: Operation::Group(GroupOp::UpdateGroup),
        },
        ProcedureView {
            name: "deleteGroup"@,
            kind: ProcedureKind::Mutation,
            operation: Operation::Group(GroupOp::DeleteGroup),
        },
    ]
}

/// Builds the table of the procedures of the groups.
pub fn create_groups_router() -> (r: RouterBuilder)
    ensures
        r@ == procedures(),
{
    let r = RouterBuilder::new()
        .query("getGroups", Operation::Group(GroupOp::GetGroups))
        .query("getGroupById", Operation::Group(GroupOp::GetGroupById))
        .query("getBelongedGroups", Operation::Group(GroupOp::GetBelongedGroups))
        .mutation("createGroups", Operation::Group(GroupOp::CreateGroups))
        .mutation("updateGroup", Operation::Group(GroupOp::UpdateGroup))
        .mutation("deleteGroup", Operation::Group(GroupOp::DeleteGroup));
    assert(r@ =~= procedures());
    r
}

/// A query of the groups leaves the store as it is.
pub proof fn lemma_queries_read_only(i: int, s: State, input: Input, now: Timestamp)
    requires
        0 <= i < procedures().len(),
        procedures()[i].kind == ProcedureKind::Query,
    ensures
        crate::router::effect(procedures()[i].operation, s, input, now) == s,
{
}

/// An update that does not say which group it is about is a bad request, and
/// writes nothing.
pub proof fn lemma_update_needs_id(s: State, input: Input, now: Timestamp)
    requires
        input matches Input::UpdateGroup(dto) && dto.id is None,
    ensures
        answer(GroupOp::UpdateGroup, s, input, now) == Err::<OutputView, Error>(
            Error {
                code: ErrorCode::BadRequest,
                fault: Fault::Service(ServiceError::ValidationError(Entity::Group)),
            },
        ),
        effect(GroupOp::UpdateGroup, s, input, now) == s,
{
}

/// How long each name is, and with which character it starts.
pub proof fn lemma_names()
    ensures
        procedures()[0].name.len() == 9 && procedures()[0].name[0] == 'g',
        procedures()[1].name.len() == 12 && procedures()[1].name[0] == 'g',
        procedures()[2].name.len() == 17 && procedures()[2].name[0] == 'g',
        procedures()[3].name.len() == 12 && procedures()[3].name[0] == 'c',
        procedures()[4].name.len() == 11 && procedures()[4].name[0] == 'u',
        procedures()[5].name.len() == 11 && procedures()[5].name[0] == 'd',
{
    reveal_strlit("getGroups");
    reveal_strlit("getGroupById");
    reveal_strlit("getBelongedGroups");
    reveal_strlit("createGroups");
    reveal_strlit("updateGroup");
    reveal_strlit("deleteGroup");
}

} // verus!
