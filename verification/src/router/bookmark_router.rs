//! The procedures of the bookmarks.

use vstd::prelude::*;

use crate::database::state::State;
use crate::entity::bookmark::mentioning;
use crate::dto::bookmark::BookmarkDto;
use crate::entity::Entity;
use crate::error::ServiceError;
use crate::repository::bookmark_repository::BookmarkRepositoryImpl;
use crate::router::{
    ContextRouter, Error, ErrorCode, Fault, Input, Operation, Output, OutputView, ProcedureKind,
    ProcedureView, RouterBuilder,
};
use crate::service::bookmark_service::{
    after_update, created, dtos, reply_found, updated, BookmarkService, BookmarkServiceImpl,
};
use crate::table::{find, owned_by};
use crate::text::keywords;
use crate::time::Timestamp;

verus! {

/// What the procedures of the bookmarks ask for.
#[derive(Clone, Copy, Debug, PartialEq, Eq, Structural)]
pub enum BookmarkOp {
    /// `list`: every bookmark.
    List,
    /// `getById`: the bookmark with the id that is sent.
    GetById,
    /// `search`: the bookmarks that mention a keyword of the text that is sent.
    Search,
    /// `getByGroup`: the bookmarks of the parent whose id is sent.
    GetByGroup,
    /// `create`: creates a bookmark.
    Create,
    /// `update`: changes a bookmark.
    Update,
    /// `delete`: deletes the bookmark with the id that is sent.
    Delete,
}

/// One bookmark, or the error of the service, as the answer of a procedure.
pub open spec fn one(r: Result<BookmarkDto, ServiceError>) -> Result<OutputView, Error> {
    match r {
        Ok(dto) => Ok(OutputView::Bookmark(dto)),
        Err(e) => Err(Error::of(e)),
    }
}

/// What a procedure of the bookmarks answers at the time `now`, on the store `s`.
pub open spec fn answer(
    op: BookmarkOp,
    s: State,
    input: Input,
    now: Timestamp,
) -> Result<OutputView, Error> {
    match op {
        BookmarkOp::List => match input {
            Input::Unit => Ok(OutputView::Bookmarks(dtos(s.bookmarks))),
            _ => Err(Error::invalid_input()),
        },
        BookmarkOp::GetById => match input {
            Input::Id(id) => one(reply_found(find(s.bookmarks, id))),
            _ => Err(Error::invalid_input()),
        },
        BookmarkOp::Search => match input {
            Input::Text(query) => Ok(
                OutputView::Bookmarks(dtos(s.bookmarks.filter(mentioning(keywords(query@))))),
            ),
            _ => Err(Error::invalid_input()),
        },
        BookmarkOp::GetByGroup => match input {
            Input::Id(id) => Ok(OutputView::Bookmarks(dtos(owned_by(s.bookmarks, id)))),
            _ => Err(Error::invalid_input()),
        },
        BookmarkOp::Create => match input {
            Input::CreateBookmark(dto) => one(created(s, dto, now)),
            _ => Err(Error::invalid_input()),
        },
        BookmarkOp::Update => match input {
            Input::UpdateBookmark(dto) => one(updated(s, dto, now)),
            _ => Err(Error::invalid_input()),
        },
        BookmarkOp::Delete => match input {
            Input::Id(_) => Ok(OutputView::Done),
            _ => Err(Error::invalid_input()),
        },
    }
}

/// The store after a procedure of the bookmarks has run at the time `now`.
pub open spec fn effect(op: BookmarkOp, s: State, input: Input, now: Timestamp) -> State {
    match op {
        BookmarkOp::Create => match input {
            Input::CreateBookmark(dto) => s.insert_bookmark(dto.staged(now)),
            _ => s,
        },
        BookmarkOp::Update => match input {
            Input::UpdateBookmark(dto) => after_update(s, dto, now),
            _ => s,
        },
        BookmarkOp::Delete => match input {
            Input::Id(id) => s.delete_bookmark(id),
            _ => s,
        },
        _ => s,
    }
}

/// Runs a procedure of the bookmarks at the time `now`, on a service that is made
/// for this call.
pub fn handle(
    op: BookmarkOp,
    ctx: &mut ContextRouter,
    input: Input,
    now: Timestamp,
) -> (r: Result<Output, Error>)
    ensures
        final(ctx).same_session(*old(ctx)),
        final(ctx).db@ == effect(op, old(ctx).db@, input, now),
        match r {
            Ok(out) => answer(op, old(ctx).db@, input, now) == Ok::<OutputView, Error>(out@),
            Err(e) => answer(op, old(ctx).db@, input, now) == Err::<OutputView, Error>(e),
        },
{
    let service = BookmarkServiceImpl::new(BookmarkRepositoryImpl::new());
    match op {
        BookmarkOp::List => match input {
            Input::Unit => match service.list_bookmark(ctx) {
                Ok(list) => Ok(Output::Bookmarks(list)),
                Err(e) => Err(Error::from_service(e)),
            },
            _ => Err(Error::bad_input()),
        },
        BookmarkOp::GetById => match input {
            Input::Id(id) => match service.get_bookmark_by_id(ctx, id) {
                Ok(dto) => Ok(Output::Bookmark(dto)),
                Err(e) => Err(Error::from_service(e)),
            },
            _ => Err(Error::bad_input()),
        },
        BookmarkOp::Search => match input {
            Input::Text(query) => match service.search_bookmarks(ctx, query.as_str()) {
                Ok(list) => Ok(Output::Bookmarks(list)),
                Err(e) => Err(Error::from_service(e)),
            },
            _ => Err(Error::bad_input()),
        },
        BookmarkOp::GetByGroup => match input {
            Input::Id(id) => match service.get_by_group(ctx, id) {
                Ok(list) => Ok(Output::Bookmarks(list)),
                Err(e) => Err(Error::from_service(e)),
            },
            _ => Err(Error::bad_input()),
        },
        BookmarkOp::Create => match input {
            Input::CreateBookmark(dto) => match service.create_bookmark(ctx, dto, now) {
                Ok(dto) => Ok(Output::Bookmark(dto)),
                Err(e) => Err(Error::from_service(e)),
            },
            _ => Err(Error::bad_input()),
        },
        BookmarkOp::Update => match input {
            Input::UpdateBookmark(dto) => match service.update_bookmark(ctx, dto, now) {
                Ok(dto) => Ok(Output::Bookmark(dto)),
                Err(e) => Err(Error::from_service(e)),
            },
            _ => Err(Error::bad_input()),
        },
        BookmarkOp::Delete => match input {
            Input::Id(id) => match service.delete_bookmark(ctx, id) {
                Ok(()) => Ok(Output::Done),
                Err(e) => Err(Error::from_service(e)),
            },
            _ => Err(Error::bad_input()),
        },
    }
}

/// The procedures of the bookmarks, by name.
pub open spec fn procedures() -> Seq<ProcedureView> {
    seq![
        ProcedureView {
            name: "list"@,
            kind: ProcedureKind::Query,
            operation: Operation::Bookmark(BookmarkOp::List),
        },
        ProcedureView {
            name: "getById"@,
            kind: ProcedureKind::Query,
            operation: Operation::Bookmark(BookmarkOp::GetById),
        },
        ProcedureView {
            name: "search"@,
            kind: ProcedureKind::Query,
            operation: Operation::Bookmark(BookmarkOp::Search),
        },
        ProcedureView {
            name: "getByGroup"@,
            kind: ProcedureKind::Query,
            operation: Operation::Bookmark(BookmarkOp::GetByGroup),
        },
        ProcedureView {
            name: "create"@,
            kind: ProcedureKind::Mutation,
            operation: Operation::Bookmark(BookmarkOp::Create),
        },
        ProcedureView {
            name: "update"@,
            kind: ProcedureKind::Mutation,
            operation: Operation::Bookmark(BookmarkOp::Update),
        },
        ProcedureView {
            name: "delete"@,
            kind: ProcedureKind::Mutation,
            operation: Operation::Bookmark(BookmarkOp::Delete),
        },
    ]
}

/// Builds the table of the procedures of the bookmarks.
pub fn create_bookmark_router() -> (r: RouterBuilder)
    ensures
        r@ == procedures(),
{
    let r = RouterBuilder::new()
        .query("list", Operation::Bookmark(BookmarkOp::List))
        .query("getById", Operation::Bookmark(BookmarkOp::GetById))
        .query("search", Operation::Bookmark(BookmarkOp::Search))
        .query("getByGroup", Operation::Bookmark(BookmarkOp::GetByGroup))
        .mutation("create", Operation::Bookmark(BookmarkOp::Create))
        .mutation("update", Operation::Bookmark(BookmarkOp::Update))
        .mutation("delete", Operation::Bookmark(BookmarkOp::Delete));
    assert(r@ =~= procedures());
    r
}

/// A query of the bookmarks leaves the store as it is.
pub proof fn lemma_queries_read_only(i: int, s: State, input: Input, now: Timestamp)
    requires
        0 <= i < procedures().len(),
        procedures()[i].kind == ProcedureKind::Query,
    ensures
        crate::router::effect(procedures()[i].operation, s, input, now) == s,
{
}

/// An update that does not say which bookmark it is about is a bad request, and
/// writes nothing.
pub proof fn lemma_update_needs_id(s: State, input: Input, now: Timestamp)
    requires
        input matches Input::UpdateBookmark(dto) && dto.id is None,
    ensures
        answer(BookmarkOp::Update, s, input, now) == Err::<OutputView, Error>(
            Error {
                code: ErrorCode::BadRequest,
                fault: Fault::Service(ServiceError::ValidationError(Entity::Bookmark)),
            },
        ),
        effect(BookmarkOp::Update, s, input, now) == s,
{
}

/// How long each name is, and with which character it starts.
pub proof fn lemma_names()
    ensures
        procedures()[0].name.len() == 4 && procedures()[0].name[0] == 'l',
        procedures()[1].name.len() == 7 && procedures()[1].name[0] == 'g',
        procedures()[2].name.len() == 6 && procedures()[2].name[0] == 's',
        procedures()[3].name.len() == 10 && procedures()[3].name[0] == 'g',
        procedures()[4].name.len() == 6 && procedures()[4].name[0] == 'c',
        procedures()[5].name.len() == 6 && procedures()[5].name[0] == 'u',
        procedures()[6].name.len() == 6 && procedures()[6].name[0] == 'd',
{
    reveal_strlit("list");
    reveal_strlit("getById");
    reveal_strlit("search");
    reveal_strlit("getByGroup");
    reveal_strlit("create");
    reveal_strlit("update");
    reveal_strlit("delete");
}

} // verus!
