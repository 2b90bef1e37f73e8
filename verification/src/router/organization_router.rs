//! The procedures of the organizations.

use vstd::prelude::*;

use crate::database::state::State;
use crate::dto::organization::OrganizationDto;
use crate::entity::Entity;
use crate::error::ServiceError;
use crate::repository::organization_repository::OrganizationRepositoryImpl;
use crate::router::{
    ContextRouter, Error, ErrorCode, Fault, Input, Operation, Output, OutputView, ProcedureKind,
    ProcedureView, RouterBuilder,
};
use crate::service::organization_service::{
    after_update, created, dtos, reply_found, updated, OrganizationService, OrganizationServiceImpl,
};
use crate::table::{find, owned_by};
use crate::time::Timestamp;

verus! {

/// What the procedures of the organizations ask for.
#[derive(Clone, Copy, Debug, PartialEq, Eq, Structural)]
pub enum OrganizationOp {
    /// `getOrganizations`: every organization.
    GetOrganizations,
    /// `getOrganizationById`: the organization with the id that is sent.
    GetOrganizationById,
    /// `getOrganizationByUserId`: the organizations of the parent whose id is sent.
    GetOrganizationByUserId,
    /// `createOrganization`: creates an organization.
    CreateOrganization,
    /// `updateOrganization`: changes an organization.
    UpdateOrganization,
    /// `deleteOrganization`: deletes the organization with the id that is sent.
    DeleteOrganization,
}

/// One organization, or the error of the service, as the answer of a procedure.
pub open spec fn one(r: Result<OrganizationDto, ServiceError>) -> Result<OutputView, Error> {
    match r {
        Ok(dto) => Ok(OutputView::Organization(dto)),
        Err(e) => Err(Error::of(e)),
    }
}

/// What a procedure of the organizations answers at the time `now`, on the store `s`.
pub open spec fn answer(
    op: OrganizationOp,
    s: State,
    input: Input,
    now: Timestamp,
) -> Result<OutputView, Error> {
    match op {
        OrganizationOp::GetOrganizations => match input {
            Input::Unit => Ok(OutputView::Organizations(dtos(s.organizations))),
            _ => Err(Error::invalid_input()),
        },
        OrganizationOp::GetOrganizationById => match input {
            Input::Id(id) => one(reply_found(find(s.organizations, id))),
            _ => Err(Error::invalid_input()),
        },
        OrganizationOp::GetOrganizationByUserId => match input {
            Input::Id(id) => Ok(OutputView::Organizations(dtos(owned_by(s.organizations, id)))),
            _ => Err(Error::invalid_input()),
        },
        OrganizationOp::CreateOrganization => match input {
            Input::CreateOrganization(dto) => one(created(s, dto, now)),
            _ => Err(Error::invalid_input()),
        },
        OrganizationOp::UpdateOrganization => match input {
            Input::UpdateOrganization(dto) => one(updated(s, dto, now)),
            _ => Err(Error::invalid_input()),
        },
        OrganizationOp::DeleteOrganization => match input {
            Input::Id(_) => Ok(OutputView::Done),
            _ => Err(Error::invalid_input()),
        },
    }
}

/// The store after a procedure of the organizations has run at the time `now`.
pub open spec fn effect(op: OrganizationOp, s: State, input: Input, now: Timestamp) -> State {
    match op {
        OrganizationOp::CreateOrganization => match input {
            Input::CreateOrganization(dto) => s.insert_organization(dto.staged(now)),
            _ => s,
        },
        OrganizationOp::UpdateOrganization => match input {
            Input::UpdateOrganization(dto) => after_update(s, dto, now),
            _ => s,
        },
        OrganizationOp::DeleteOrganization => match input {
            Input::Id(id) => s.delete_organization(id),
            _ => s,
        },
        _ => s,
    }
}

/// Runs a procedure of the organizations at the time `now`, on a service that is made
/// for this call.
pub fn handle(
    op: OrganizationOp,
    ctx: &mut ContextRouter,
    input: Input,
    now: Timestamp,
) -> (r: Result<Output, Error>)
    ensures
        final(ctx).same_session(*old(ctx)),
        final(ctx).db@ == effect(op, old(ctx).db@, input, now),
        match r {
            Ok(out) => answer(op, old(ctx).db@, input, now) == Ok::<OutputView, Error>(out@),
            Err(e) => answer(op, old(ctx).db@, input, now) == Err::<OutputView, Error>(e),
        },
{
    let service = OrganizationServiceImpl::new(OrganizationRepositoryImpl::new());
    match op {
        OrganizationOp::GetOrganizations => match input {
            Input::Unit => match service.list_organizations(ctx) {
                Ok(list) => Ok(Output::Organizations(list)),
                Err(e) => Err(Error::from_service(e)),
            },
            _ => Err(Error::bad_input()),
        },
        OrganizationOp::GetOrganizationById => match input {
            Input::Id(id) => match service.get_organization_by_id(ctx, id) {
                Ok(dto) => Ok(Output::Organization(dto)),
                Err(e) => Err(Error::from_service(e)),
            },
            _ => Err(Error::bad_input()),
        },
        OrganizationOp::GetOrganizationByUserId => match input {
            Input::Id(id) => match service.get_organization_by_user_id(ctx, id) {
                Ok(list) => Ok(Output::Organizations(list)),
                Err(e) => Err(Error::from_service(e)),
            },
            _ => Err(Error::bad_input()),
        },
        OrganizationOp::CreateOrganization => match input {
            Input::CreateOrganization(dto) => match service.create_organization(ctx, dto, now) {
                Ok(dto) => Ok(Output::Organization(dto)),
                Err(e) => Err(Error::from_service(e)),
            },
            _ => Err(Error::bad_input()),
        },
        OrganizationOp::UpdateOrganization => match input {
            Input::UpdateOrganization(dto) => match service.update_organization(ctx, dto, now) {
                Ok(dto) => Ok(Output::Organization(dto)),
                Err(e) => Err(Error::from_service(e)),
            },
            _ => Err(Error::bad_input()),
        },
        OrganizationOp::DeleteOrganization => match input {
            Input::Id(id) => match service.delete_organization(ctx, id) {
                Ok(()) => Ok(Output::Done),
                Err(e) => Err(Error::from_service(e)),
            },
            _ => Err(Error::bad_input()),
        },
    }
}

/// The procedures of the organizations, by name.
pub open spec fn procedures() -> Seq<ProcedureView> {
    seq![
        ProcedureView {
            name: "getOrganizations"@,
            kind: ProcedureKind::Query,
            operation: Operation::Organization(OrganizationOp::GetOrganizations),
        },
        ProcedureView {
            name: "getOrganizationById"@,
            kind: ProcedureKind::Query,
            operation: Operation::Organization(OrganizationOp::GetOrganizationById),
        },
        ProcedureView {
            name: "getOrganizationByUserId"@,
            kind: ProcedureKind::Query,
            operation: Operation::Organization(OrganizationOp::GetOrganizationByUserId),
        },
        ProcedureView {
            name: "createOrganization"@,
            kind: ProcedureKind::Mutation,
            operation: Operation::Organization(OrganizationOp::CreateOrganization),
        },
        ProcedureView {
            name: "updateOrganization"@,
            kind: ProcedureKind::Mutation,
            operation: Operation::Organization(OrganizationOp::UpdateOrganization),
        },
        ProcedureView {
            name: "deleteOrganization"@,
            kind: ProcedureKind::Mutation,
            operation: Operation::Organization(OrganizationOp::DeleteOrganization),
        },
    ]
}

/// Builds the table of the procedures of the organizations.
pub fn create_organization_router() -> (r: RouterBuilder)
    ensures
        r@ == procedures(),
{
    let r = RouterBuilder::new()
        .query("getOrganizations", Operation::Organization(OrganizationOp::GetOrganizations))
        .query("getOrganizationById", Operation::Organization(OrganizationOp::GetOrganizationById))
        .query(
            "getOrganizationByUserId",
            Operation::Organization(OrganizationOp::GetOrganizationByUserId),
        )
        .mutation("createOrganization", Operation::Organization(OrganizationOp::CreateOrganization))
        .mutation("updateOrganization", Operation::Organization(OrganizationOp::UpdateOrganization))
        .mutation(
            "deleteOrganization",
            Operation::Organization(OrganizationOp::DeleteOrganization),
        );
    assert(r@ =~= procedures());
    r
}

/// A query of the organizations leaves the store as it is.
pub proof fn lemma_queries_read_only(i: int, s: State, input: Input, now: Timestamp)
    requires
        0 <= i < procedures().len(),
        procedures()[i].kind == ProcedureKind::Query,
    ensures
        crate::router::effect(procedures()[i].operation, s, input, now) == s,
{
}

/// An update that does not say which organization it is about is a bad request, and
/// writes nothing.
pub proof fn lemma_update_needs_id(s: State, input: Input, now: Timestamp)
    requires
        input matches Input::UpdateOrganization(dto) && dto.id is None,
    ensures
        answer(OrganizationOp::UpdateOrganization, s, input, now) == Err::<OutputView, Error>(
            Error {
                code: ErrorCode::BadRequest,
                fault: Fault::Service(ServiceError::ValidationError(Entity::Organization)),
            },
        ),
        effect(OrganizationOp::UpdateOrganization, s, input, now) == s,
{
}

/// How long each name is, and with which character it starts.
pub proof fn lemma_names()
    ensures
        procedures()[0].name.len() == 16 && procedures()[0].name[0] == 'g',
        procedures()[1].name.len() == 19 && procedures()[1].name[0] == 'g',
        procedures()[2].name.len() == 23 && procedures()[2].name[0] == 'g',
        procedures()[3].name.len() == 18 && procedures()[3].name[0] == 'c',
        procedures()[4].name.len() == 18 && procedures()[4].name[0] == 'u',
        procedures()[5].name.len() == 18 && procedures()[5].name[0] == 'd',
{
    reveal_strlit("getOrganizations");
    reveal_strlit("getOrganizationById");
    reveal_strlit("getOrganizationByUserId");
    reveal_strlit("createOrganization");
    reveal_strlit("updateOrganization");
    reveal_strlit("deleteOrganization");
}

} // verus!
