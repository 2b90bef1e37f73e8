use bookmarks::database::Database;
use bookmarks::dto::bookmark::CreateBookmarkRequest;
use bookmarks::dto::groups::CreateGroupsDto;
use bookmarks::dto::organization::CreateOrganizationDto;
use bookmarks::dto::user::CreateUserDto;
use bookmarks::dto::workspace::CreateWorkspaceDto;
use bookmarks::entity::Entity;
use bookmarks::error::{DbError, ServiceError};
use bookmarks::repository::bookmark_repository::BookmarkRepositoryImpl;
use bookmarks::repository::groups_repository::GroupRepositoryImpl;
use bookmarks::repository::organization_repository::OrganizationRepositoryImpl;
use bookmarks::repository::user_repository::UserRepositoryImpl;
use bookmarks::repository::workspace_repository::WorkspaceRepositoryImpl;
use bookmarks::router::ContextRouter;
use bookmarks::service::bookmark_service::{BookmarkService, BookmarkServiceImpl};
use bookmarks::service::group_service::{GroupService, GroupsServiceImpl};
use bookmarks::service::organization_service::{OrganizationService, OrganizationServiceImpl};
use bookmarks::service::user_service::{UserService, UserServiceImpl};
use bookmarks::service::workspace_service::{WorkspaceService, WorkspaceServiceImpl};
use bookmarks::time::Timestamp;

#[test]
fn deleting_a_workspace_takes_its_group_and_bookmark() {
    let mut ctx = ContextRouter::new(Database::new());
    let users = UserServiceImpl::new(UserRepositoryImpl::new());
    let organizations = OrganizationServiceImpl::new(OrganizationRepositoryImpl::new());
    let workspaces = WorkspaceServiceImpl::new(WorkspaceRepositoryImpl::new());
    let groups = GroupsServiceImpl::new(GroupRepositoryImpl::new());
    let bookmarks = BookmarkServiceImpl::new(BookmarkRepositoryImpl::new());
    let now = Timestamp::new(1_750_000_000, 0);

    let ana = users
        .create_user(
            &mut ctx,
            CreateUserDto { name: "Ana".to_string(), email: "a@x.com".to_string() },
            now,
        )
        .unwrap();
    let acme = organizations
        .create_organization(
            &mut ctx,
            CreateOrganizationDto { name: "Acme".to_string(), user_id: ana.id },
            now,
        )
        .unwrap();
    let eng = workspaces
        .create_workspace(
            &mut ctx,
            CreateWorkspaceDto { name: "Eng".to_string(), organization_id: acme.id },
            now,
        )
        .unwrap();
    let links = groups
        .create_group(
            &mut ctx,
            CreateGroupsDto { name: "Links".to_string(), workspace_id: eng.id },
            now,
        )
        .unwrap();
    let docs = bookmarks
        .create_bookmark(
            &mut ctx,
            CreateBookmarkRequest {
                name: "Docs".to_string(),
                url: "https://x".to_string(),
                tags: "ref".to_string(),
                is_favorite: false,
                group_id: Some(links.id),
            },
            now,
        )
        .unwrap();
    assert_eq!(docs.name, "Docs");
    assert_eq!(docs.group_id, Some(links.id));
    assert_eq!(groups.get_group_by_id(&ctx, links.id).unwrap().id, links.id);

    assert_eq!(workspaces.delete_workspace(&mut ctx, eng.id), Ok(()));

    assert_eq!(
        groups.get_group_by_id(&ctx, links.id),
        Err(ServiceError::NotFound(DbError::RecordNotFound(Entity::Group)))
    );
    assert_eq!(
        bookmarks.get_bookmark_by_id(&ctx, docs.id),
        Err(ServiceError::NotFound(DbError::RecordNotFound(Entity::Bookmark)))
    );
    assert_eq!(organizations.get_organization_by_id(&ctx, acme.id).unwrap(), acme);
    assert_eq!(users.get_user_by_id(&ctx, ana.id).unwrap(), ana);
}
