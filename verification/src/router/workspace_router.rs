//! The procedures of the workspaces.

use vstd::prelude::*;

use crate::database::state::State;
use crate::dto::workspace::WorkspaceDto;
use crate::entity::Entity;
use crate::error::ServiceError;
use crate::repository::workspace_repository::WorkspaceRepositoryImpl;
use crate::router::{
    ContextRouter, Error, ErrorCode, Fault, Input, Operation, Output, OutputView, ProcedureKind,
    ProcedureView, RouterBuilder,
};
use crate::service::workspace_service::{
    after_update, created, dtos, updated, WorkspaceService, WorkspaceServiceImpl,
};
use crate::time::Timestamp;

verus! {

/// What the procedures of the workspaces ask for.
#[derive(Clone, Copy, Debug, PartialEq, Eq, Structural)]
pub enum WorkspaceOp {
    /// `getWorkspaces`: every workspace.
    GetWorkspaces,
    /// `createWorkspace`: creates a workspace.
    CreateWorkspace,
    /// `updateWorkspace`: changes a workspace.
    UpdateWorkspace,
    /// `deleteWorkspace`: deletes the workspace with the id that is sent.
    DeleteWorkspace,
}

/// One workspace, or the error of the service, as the answer of a procedure.
pub open spec fn one(r: Result<WorkspaceDto, ServiceError>) -> Result<OutputView, Error> {
    match r {
        Ok(dto) => Ok(OutputView::Workspace(dto)),
        Err(e) => Err(Error::of(e)),
    }
}

/// What a procedure of the workspaces answers at the time `now`, on the store `s`.
pub open spec fn answer(
    op: WorkspaceOp,
    s: State,
    input: Input,
    now: Timestamp,
) -> Result<OutputView, Error> {
    match op {
        WorkspaceOp::GetWorkspaces => match input {
            Input::Unit => Ok(OutputView::Workspaces(dtos(s.workspaces))),
            _ => Err(Error::invalid_input()),
        },
        WorkspaceOp::CreateWorkspace => match input {
            Input::CreateWorkspace(dto) => one(created(s, dto, now)),
            _ => Err(Error::invalid_input()),
        },
        WorkspaceOp::UpdateWorkspace => match input {
            Input::UpdateWorkspace(dto) => one(updated(s, dto, now)),
            _ => Err(Error::invalid_input()),
        },
        WorkspaceOp::DeleteWorkspace => match input {
            Input::Id(_) => Ok(OutputView::Done),
            _ => Err(Error::invalid_input()),
        },
    }
}

/// The store after a procedure of the workspaces has run at the time `now`.
pub open spec fn effect(op: WorkspaceOp, s: State, input: Input, now: Timestamp) -> State {
    match op {
        WorkspaceOp::CreateWorkspace => match input {
            Input::CreateWorkspace(dto) => s.insert_workspace(dto.staged(now)),
            _ => s,
        },
        WorkspaceOp::UpdateWorkspace => match input {
            Input::UpdateWorkspace(dto) => after_update(s, dto, now),
            _ => s,
        },
        WorkspaceOp::DeleteWorkspace => match input {
            Input::Id(id) => s.delete_workspace(id),
            _ => s,
        },
        _ => s,
    }
}

/// Runs a procedure of the workspaces at the time `now`, on a service that is made
/// for this call.
pub fn handle(
    op: WorkspaceOp,
    ctx: &mut ContextRouter,
    input: Input,
    now: Timestamp,
) -> (r: Result<Output, Error>)
    ensures
        final(ctx).same_session(*old(ctx)),
        final(ctx).db@ == effect(op, old(ctx).db@, input, now),
        match r {
            Ok(out) => answer(op, old(ctx).db@, input, now) == Ok::<OutputView, Error>(out@),
            Err(e) => answer(op, old(ctx).db@, input, now) == Err::<OutputView, Error>(e),
        },
{
    let service = WorkspaceServiceImpl::new(WorkspaceRepositoryImpl::new());
    match op {
        WorkspaceOp::GetWorkspaces => match input {
            Input::Unit => match service.list_workspace(ctx) {
                Ok(list) => Ok(Output::Workspaces(list)),
                Err(e) => Err(Error::from_service(e)),
            },
            _ => Err(Error::bad_input()),
        },
        WorkspaceOp::CreateWorkspace => match input {
            Input::CreateWorkspace(dto) => match service.create_workspace(ctx, dto, now) {
                Ok(dto) => Ok(Output::Workspace(dto)),
                Err(e) => Err(Error::from_service(e)),
            },
            _ => Err(Error::bad_input()),
        },
        WorkspaceOp::UpdateWorkspace => match input {
            Input::UpdateWorkspace(dto) => match service.update_workspace(ctx, dto, now) {
                Ok(dto) => Ok(Output::Workspace(dto)),
                Err(e) => Err(Error::from_service(e)),
            },
            _ => Err(Error::bad_input()),
        },
        WorkspaceOp::DeleteWorkspace => match input {
            Input::Id(id) => match service.delete_workspace(ctx, id) {
                Ok(()) => Ok(Output::Done),
                Err(e) => Err(Error::from_service(e)),
            },
            _ => Err(Error::bad_input()),
        },
    }
}

/// The procedures of the workspaces, by name.
pub open spec fn procedures() -> Seq<ProcedureView> {
    seq![
        ProcedureView {
            name: "getWorkspaces"@,
            kind: ProcedureKind::Query,
            operation: Operation::Workspace(WorkspaceOp::GetWorkspaces),
        },
        ProcedureView {
            name: "createWorkspace"@,
            kind: ProcedureKind::Mutation,
            operation: Operation::Workspace(WorkspaceOp::CreateWorkspace),
        },
        ProcedureView {
            name: "updateWorkspace"@,
            kind: ProcedureKind::Mutation,
            operation: Operation::Workspace(WorkspaceOp::UpdateWorkspace),
        },
        ProcedureView {
            name: "deleteWorkspace"@,
            kind: ProcedureKind::Mutation,
            operation: Operation::Workspace(WorkspaceOp::DeleteWorkspace),
        },
    ]
}

/// Builds the table of the procedures of the workspaces.
pub fn create_workspace_router() -> (r: RouterBuilder)
    ensures
        r@ == procedures(),
{
    let r = RouterBuilder::new()
        .query("getWorkspaces", Operation::Workspace(WorkspaceOp::GetWorkspaces))
        .mutation("createWorkspace", Operation::Workspace(WorkspaceOp::CreateWorkspace))
        .mutation("updateWorkspace", Operation::Workspace(WorkspaceOp::UpdateWorkspace))
        .mutation("deleteWorkspace", Operation::Workspace(WorkspaceOp::DeleteWorkspace));
    assert(r@ =~= procedures());
    r
}

/// A query of the workspaces leaves the store as it is.
pub proof fn lemma_queries_read_only(i: int, s: State, input: Input, now: Timestamp)
    requires
        0 <= i < procedures().len(),
        procedures()[i].kind == ProcedureKind::Query,
    ensures
        crate::router::effect(procedures()[i].operation, s, input, now) == s,
{
}

/// An update that does not say which workspace it is about is a bad request, and
/// writes nothing.
pub proof fn lemma_update_needs_id(s: State, input: Input, now: Timestamp)
    requires
        input matches Input::UpdateWorkspace(dto) && dto.id is None,
    ensures
        answer(WorkspaceOp::UpdateWorkspace, s, input, now) == Err::<OutputView, Error>(
            Error {
                code: ErrorCode::BadRequest,
                fault: Fault::Service(ServiceError::ValidationError(Entity::Workspace)),
            },
        ),
        effect(WorkspaceOp::UpdateWorkspace, s, input, now) == s,
{
}

/// How long each name is, and with which character it starts.
pub proof fn lemma_names()
    ensures
        procedures()[0].name.len() == 13 && procedures()[0].name[0] == 'g',
        procedures()[1].name.len() == 15 && procedures()[1].name[0] == 'c',
        procedures()[2].name.len() == 15 && procedures()[2].name[0] == 'u',
        procedures()[3].name.len() == 15 && procedures()[3].name[0] == 'd',
{
    reveal_strlit("getWorkspaces");
    reveal_strlit("createWorkspace");
    reveal_strlit("updateWorkspace");
    reveal_strlit("deleteWorkspace");
}

} // verus!
