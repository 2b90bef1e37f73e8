//! The service of the bookmarks: what a request may ask, and what it is told.

use vstd::prelude::*;

use crate::database::state::State;
use crate::dto::bookmark::{BookmarkDto, CreateBookmarkRequest, UpdateBookmarkRequest};
use crate::entity::bookmark::{mentioning, ActiveModel, Model};
use crate::entity::Entity;
use crate::error::{DbError, ServiceError};
use crate::repository::bookmark_repository::BookmarkRepository;
use crate::router::ContextRouter;
use crate::service::required_id;
use crate::table::{find, has_key, owned_by};
use crate::text::keywords;
use crate::time::Timestamp;

verus! {

/// The answer for a row that a write returned, or for the error that it met.
pub open spec fn reply(result: Result<Model, DbError>) -> Result<BookmarkDto, ServiceError> {
    match result {
        Ok(row) => Ok(BookmarkDto::of(row)),
        Err(e) => Err(ServiceError::of(e)),
    }
}

/// The answer for a lookup: the row, or that it is not found.
pub open spec fn reply_found(row: Option<Model>) -> Result<BookmarkDto, ServiceError> {
    match row {
        Some(row) => Ok(BookmarkDto::of(row)),
        None => Err(ServiceError::NotFound(DbError::RecordNotFound(Entity::Bookmark))),
    }
}

/// The answer for what a lookup found: a row that is missing is not found.
pub fn found(row: Option<Model>) -> (r: Result<BookmarkDto, ServiceError>)
    ensures
        r == reply_found(row),
{
    match row {
        Some(row) => Ok(BookmarkDto::from(row)),
        None => Err(ServiceError::NotFound(DbError::RecordNotFound(Entity::Bookmark))),
    }
}

/// The answer to a create at the time `now`.
pub open spec fn created(
    s: State,
    dto: CreateBookmarkRequest,
    now: Timestamp,
) -> Result<BookmarkDto, ServiceError> {
    reply(s.bookmark_to_insert(dto.staged(now)))
}

/// The answer to an update at the time `now`: without an id the input is
/// refused before anything is looked up.
pub open spec fn updated(
    s: State,
    dto: UpdateBookmarkRequest,
    now: Timestamp,
) -> Result<BookmarkDto, ServiceError> {
    match dto.id {
        None => Err(ServiceError::ValidationError(Entity::Bookmark)),
        Some(id) => reply(s.bookmark_to_update(dto.changes(id, now))),
    }
}

/// The store after an update at the time `now`.
pub open spec fn after_update(s: State, dto: UpdateBookmarkRequest, now: Timestamp) -> State {
    match dto.id {
        None => s,
        Some(id) => s.update_bookmark(dto.changes(id, now)),
    }
}

/// The rows as callers see them, one for one.
pub open spec fn dtos(rows: Seq<Model>) -> Seq<BookmarkDto> {
    rows.map_values(|row: Model| BookmarkDto::of(row))
}

fn to_dtos(rows: Vec<Model>) -> (out: Vec<BookmarkDto>)
    ensures
        out@ == dtos(rows@),
{
    let mut out: Vec<BookmarkDto> = Vec::new();
    let mut i: usize = 0;
    while i < rows.len()
        invariant
            i <= rows@.len(),
            out@.len() == i,
            forall|j: int| 0 <= j < i ==> #[trigger] out@[j] == BookmarkDto::of(rows@[j]),
        decreases rows@.len() - i,
    {
        out.push(BookmarkDto::from(rows[i].clone()));
        i += 1;
    }
    assert(out@ =~= dtos(rows@));
    out
}

/// What the service of the bookmarks does.
pub trait BookmarkService {
    /// Creates a bookmark at the time `now`. What comes back is what was sent,
    /// with the key that the store gave and both timestamps at `now`.
    fn create_bookmark(
        &self,
        ctx: &mut ContextRouter,
        dto: CreateBookmarkRequest,
        now: Timestamp,
    ) -> (r: Result<BookmarkDto, ServiceError>)
        ensures
            final(ctx).same_session(*old(ctx)),
            final(ctx).db@ == old(ctx).db@.insert_bookmark(dto.staged(now)),
            r == created(old(ctx).db@, dto, now),
            r is Ok <==> {
                &&& old(ctx).db@.next_bookmark < i32::MAX
                &&& dto.group_id matches Some(parent) ==> has_key(old(ctx).db@.groups, parent)
            },
            r is Err ==> final(ctx).db@ == old(ctx).db@,
            r matches Ok(out) ==> {
                &&& out.id == old(ctx).db@.next_bookmark
                &&& out.name == dto.name
                &&& out.url == dto.url
                &&& out.tags == dto.tags
                &&& out.is_favorite == dto.is_favorite
                &&& out.group_id == dto.group_id
                &&& out.created_at == now
                &&& out.updated_at == now
            },
    ;

    /// The bookmark with the key `id`.
    fn get_bookmark_by_id(
        &self,
        ctx: &ContextRouter,
        id: i32,
    ) -> (r: Result<BookmarkDto, ServiceError>)
        ensures
            r == reply_found(find(ctx.db@.bookmarks, id)),
    ;

    /// Changes the bookmark that `dto.id` names, at the time `now`. Without an id
    /// nothing is looked up and nothing is written. A field that is absent stays
    /// as it is stored, the key and `created_at` stay in any case, and
    /// `updated_at` becomes `now`: later than before, if the clock has moved on
    /// since the last write.
    fn update_bookmark(
        &self,
        ctx: &mut ContextRouter,
        dto: UpdateBookmarkRequest,
        now: Timestamp,
    ) -> (r: Result<BookmarkDto, ServiceError>)
        ensures
            final(ctx).same_session(*old(ctx)),
            r == updated(old(ctx).db@, dto, now),
            final(ctx).db@ == after_update(old(ctx).db@, dto, now),
            r is Ok <==> {
                &&& dto.id matches Some(id)
                &&& has_key(old(ctx).db@.bookmarks, id)
                &&& dto.group_id matches Some(parent) ==> has_key(old(ctx).db@.groups, parent)
            },
            r is Err ==> final(ctx).db@ == old(ctx).db@,
            dto.id matches Some(id) && !has_key(old(ctx).db@.bookmarks, id) ==> {
                r == Err::<BookmarkDto, ServiceError>(
                    ServiceError::NotFound(DbError::RecordNotFound(Entity::Bookmark)),
                )
            },
            dto.id is None ==> r == Err::<BookmarkDto, ServiceError>(
                ServiceError::ValidationError(Entity::Bookmark),
            ) && final(ctx).db@ == old(ctx).db@,
            r matches Ok(out) ==> {
                &&& dto.id == Some(out.id)
                &&& find(old(ctx).db@.bookmarks, out.id) matches Some(before)
                &&& out.name == match dto.name {
                    Some(v) => v,
                    None => before.name,
                }
                &&& out.url == match dto.url {
                    Some(v) => v,
                    None => before.url,
                }
                &&& out.tags == match dto.tags {
                    Some(v) => v,
                    None => before.tags,
                }
                &&& out.is_favorite == match dto.is_favorite {
                    Some(v) => v,
                    None => before.is_favorite,
                }
                &&& out.group_id == match dto.group_id {
                    Some(v) => Some(v),
                    None => before.group_id,
                }
                &&& out.created_at == before.created_at
                &&& out.deleted_at == before.deleted_at
                &&& out.updated_at == now
                &&& before.updated_at.before(now) ==> before.updated_at.before(out.updated_at)
            },
    ;

    /// Deletes the bookmark with the key `id` and what hangs on it. Deleting what is
    /// not there is no error.
    fn delete_bookmark(&self, ctx: &mut ContextRouter, id: i32) -> (r: Result<(), ServiceError>)
        ensures
            final(ctx).same_session(*old(ctx)),
            final(ctx).db@ == old(ctx).db@.delete_bookmark(id),
            find(final(ctx).db@.bookmarks, id) is None,
            r is Ok,
    ;

    /// Every bookmark.
    fn list_bookmark(&self, ctx: &ContextRouter) -> (r: Result<Vec<BookmarkDto>, ServiceError>)
        ensures
            r matches Ok(list) && list@ == dtos(ctx.db@.bookmarks),
    ;

    /// The bookmarks that mention a keyword of the query in their name or in
    /// their tags.
    fn search_bookmarks(
        &self,
        ctx: &ContextRouter,
        query: &str,
    ) -> (r: Result<Vec<BookmarkDto>, ServiceError>)
        ensures
            r matches Ok(list) && list@ == dtos(
                ctx.db@.bookmarks.filter(mentioning(keywords(query@))),
            ),
    ;

    /// The bookmarks of one group.
    fn get_by_group(
        &self,
        ctx: &ContextRouter,
        group_id: i32,
    ) -> (r: Result<Vec<BookmarkDto>, ServiceError>)
        ensures
            r matches Ok(list) && list@ == dtos(owned_by(ctx.db@.bookmarks, group_id)),
    ;
}

/// The service of the bookmarks over a repository.
pub struct BookmarkServiceImpl<R: BookmarkRepository> {
    pub bookmark_repository: R,
}

impl<R: BookmarkRepository> BookmarkServiceImpl<R> {
    pub fn new(bookmark_repository: R) -> (r: BookmarkServiceImpl<R>)
        ensures
            r.bookmark_repository == bookmark_repository,
    {
        BookmarkServiceImpl { bookmark_repository }
    }
}

impl<R: BookmarkRepository> BookmarkService for BookmarkServiceImpl<R> {
    fn create_bookmark(
        &self,
        ctx: &mut ContextRouter,
        dto: CreateBookmarkRequest,
        now: Timestamp,
    ) -> (r: Result<BookmarkDto, ServiceError>) {
        proof {
            use_type_invariant(&ctx.db);
        }
        let input = dto.into_active_model(now);
        match self.bookmark_repository.create(&mut ctx.db, input) {
            Ok(row) => Ok(BookmarkDto::from(row)),
            Err(e) => Err(ServiceError::from_db_err(e)),
        }
    }

    fn get_bookmark_by_id(
        &self,
        ctx: &ContextRouter,
        id: i32,
    ) -> (r: Result<BookmarkDto, ServiceError>) {
        match self.bookmark_repository.find_by_id(&ctx.db, id) {
            Ok(row) => found(row),
            Err(e) => Err(ServiceError::from_db_err(e)),
        }
    }

    fn update_bookmark(
        &self,
        ctx: &mut ContextRouter,
        dto: UpdateBookmarkRequest,
        now: Timestamp,
    ) -> (r: Result<BookmarkDto, ServiceError>) {
        proof {
            use_type_invariant(&ctx.db);
        }
        let id = match required_id(dto.id, Entity::Bookmark) {
            Ok(id) => id,
            Err(e) => {
                return Err(e);
            },
        };
        let input = dto.apply_to_model(ActiveModel::new(), now);
        match self.bookmark_repository.update(&mut ctx.db, id, input) {
            Ok(row) => Ok(BookmarkDto::from(row)),
            Err(e) => Err(ServiceError::from_db_err(e)),
        }
    }

    fn delete_bookmark(&self, ctx: &mut ContextRouter, id: i32) -> (r: Result<(), ServiceError>) {
        proof {
            old(ctx).db@.lemma_delete_bookmark_gone(id);
        }
        match self.bookmark_repository.delete(&mut ctx.db, id) {
            Ok(()) => Ok(()),
            Err(e) => Err(ServiceError::from_db_err(e)),
        }
    }

    fn list_bookmark(&self, ctx: &ContextRouter) -> (r: Result<Vec<BookmarkDto>, ServiceError>) {
        match self.bookmark_repository.find_all(&ctx.db) {
            Ok(rows) => Ok(to_dtos(rows)),
            Err(e) => Err(ServiceError::from_db_err(e)),
        }
    }

    fn search_bookmarks(
        &self,
        ctx: &ContextRouter,
        query: &str,
    ) -> (r: Result<Vec<BookmarkDto>, ServiceError>) {
        match self.bookmark_repository.search(&ctx.db, query) {
            Ok(rows) => Ok(to_dtos(rows)),
            Err(e) => Err(ServiceError::from_db_err(e)),
        }
    }

    fn get_by_group(
        &self,
        ctx: &ContextRouter,
        group_id: i32,
    ) -> (r: Result<Vec<BookmarkDto>, ServiceError>) {
        match self.bookmark_repository.find_by_group_id(&ctx.db, group_id) {
            Ok(rows) => Ok(to_dtos(rows)),
            Err(e) => Err(ServiceError::from_db_err(e)),
        }
    }
}

} // verus!
