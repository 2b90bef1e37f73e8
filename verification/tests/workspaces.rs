use bookmarks::database::Database;
use bookmarks::dto::organization::CreateOrganizationDto;
use bookmarks::dto::user::CreateUserDto;
use bookmarks::dto::workspace::{CreateWorkspaceDto, UpdateWorkspaceDto, WorkspaceDto};
use bookmarks::entity::Entity;
use bookmarks::error::{DbError, ServiceError};
use bookmarks::repository::organization_repository::OrganizationRepositoryImpl;
use bookmarks::repository::user_repository::UserRepositoryImpl;
use bookmarks::repository::workspace_repository::{WorkspaceRepository, WorkspaceRepositoryImpl};
use bookmarks::router::ContextRouter;
use bookmarks::service::organization_service::{OrganizationService, OrganizationServiceImpl};
use bookmarks::service::user_service::{UserService, UserServiceImpl};
use bookmarks::service::workspace_service::{WorkspaceService, WorkspaceServiceImpl};
use bookmarks::time::Timestamp;

fn service() -> WorkspaceServiceImpl<WorkspaceRepositoryImpl> {
    WorkspaceServiceImpl::new(WorkspaceRepositoryImpl::new())
}

fn with_organizations(count: i32) -> ContextRouter {
    let mut ctx = ContextRouter::new(Database::new());
    let now = Timestamp::new(1, 0);
    UserServiceImpl::new(UserRepositoryImpl::new())
        .create_user(&mut ctx, CreateUserDto { name: "Ana".to_string(), email: "a@x.com".to_string() }, now)
        .unwrap();
    let organizations = OrganizationServiceImpl::new(OrganizationRepositoryImpl::new());
    for i in 0..count {
        organizations
            .create_organization(
                &mut ctx,
                CreateOrganizationDto { name: format!("org {}", i + 1), user_id: 1 },
                now,
            )
            .unwrap();
    }
    ctx
}

fn eng(organization_id: i32) -> CreateWorkspaceDto {
    CreateWorkspaceDto { name: "Eng".to_string(), organization_id }
}

#[test]
fn create_workspace_returns_what_was_sent() {
    let mut ctx = with_organizations(3);
    let now = Timestamp::new(77, 7);
    let created = service().create_workspace(&mut ctx, eng(3), now).unwrap();
    assert_eq!(
        created,
        WorkspaceDto {
            id: 1,
            name: "Eng".to_string(),
            organization_id: 3,
            created_at: now,
            updated_at: now,
            deleted_at: None,
        }
    );
    assert_eq!(service().get_workspace_by_id(&ctx, 1), Ok(created));
}

#[test]
fn create_workspace_for_a_missing_organization_fails() {
    let mut ctx = with_organizations(0);
    assert_eq!(
        service().create_workspace(&mut ctx, eng(1), Timestamp::new(1, 0)),
        Err(ServiceError::DatabaseFailure(DbError::ForeignKeyViolation(Entity::Workspace)))
    );
    assert_eq!(service().list_workspace(&ctx), Ok(vec![]));
}

#[test]
fn update_workspace_changes_only_what_is_present() {
    let mut ctx = with_organizations(2);
    let then = Timestamp::new(10, 999_999_999);
    let now = Timestamp::new(11, 0);
    let before = service().create_workspace(&mut ctx, eng(1), then).unwrap();
    let change = UpdateWorkspaceDto { id: Some(1), name: Some("Ops".to_string()), organization_id: None };
    let after = service().update_workspace(&mut ctx, change, now).unwrap();
    assert_eq!(after, WorkspaceDto { name: "Ops".to_string(), updated_at: now, ..before.clone() });
    assert!(before.updated_at.is_before(&after.updated_at));
    assert_eq!(service().get_workspace_by_id(&ctx, 1), Ok(after));
}

#[test]
fn update_workspace_without_id_is_refused_and_writes_nothing() {
    let mut ctx = with_organizations(1);
    let before = service().create_workspace(&mut ctx, eng(1), Timestamp::new(1, 0)).unwrap();
    let change = UpdateWorkspaceDto { id: None, name: Some("Ops".to_string()), organization_id: None };
    assert_eq!(
        service().update_workspace(&mut ctx, change, Timestamp::new(2, 0)),
        Err(ServiceError::ValidationError(Entity::Workspace))
    );
    assert_eq!(service().list_workspace(&ctx), Ok(vec![before]));
}

#[test]
fn update_of_a_missing_workspace_is_not_found() {
    let mut ctx = with_organizations(1);
    let change = UpdateWorkspaceDto { id: Some(1), name: None, organization_id: None };
    assert_eq!(
        service().update_workspace(&mut ctx, change, Timestamp::new(2, 0)),
        Err(ServiceError::NotFound(DbError::RecordNotFound(Entity::Workspace)))
    );
}

#[test]
fn delete_of_a_missing_workspace_succeeds_and_changes_nothing() {
    let mut ctx = with_organizations(1);
    let kept = service().create_workspace(&mut ctx, eng(1), Timestamp::new(1, 0)).unwrap();
    let repository = WorkspaceRepositoryImpl::new();
    assert_eq!(repository.get_workspace_by_id(&ctx.db, 2), Ok(None));
    assert_eq!(service().delete_workspace(&mut ctx, 2), Ok(()));
    assert_eq!(repository.get_workspace_by_id(&ctx.db, 2), Ok(None));
    assert_eq!(service().list_workspace(&ctx), Ok(vec![kept]));
}

#[test]
fn get_of_a_missing_workspace_is_not_found() {
    let ctx = with_organizations(1);
    assert_eq!(
        service().get_workspace_by_id(&ctx, 1),
        Err(ServiceError::NotFound(DbError::RecordNotFound(Entity::Workspace)))
    );
}
