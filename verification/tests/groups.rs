use bookmarks::database::Database;
use bookmarks::dto::groups::{CreateGroupsDto, GroupsByWorkspaceOrg, GroupsDto, UpdateGroupsDto};
use bookmarks::dto::organization::CreateOrganizationDto;
use bookmarks::dto::user::CreateUserDto;
use bookmarks::dto::workspace::CreateWorkspaceDto;
use bookmarks::entity::groups::Model;
use bookmarks::entity::Entity;
use bookmarks::error::{DbError, ServiceError};
use bookmarks::repository::groups_repository::{GroupRepository, GroupRepositoryImpl};
use bookmarks::repository::organization_repository::OrganizationRepositoryImpl;
use bookmarks::repository::user_repository::UserRepositoryImpl;
use bookmarks::repository::workspace_repository::WorkspaceRepositoryImpl;
use bookmarks::router::ContextRouter;
use bookmarks::service::group_service::{GroupService, GroupsServiceImpl};
use bookmarks::service::organization_service::{OrganizationService, OrganizationServiceImpl};
use bookmarks::service::user_service::{UserService, UserServiceImpl};
use bookmarks::service::workspace_service::{WorkspaceService, WorkspaceServiceImpl};
use bookmarks::time::Timestamp;

fn service() -> GroupsServiceImpl<GroupRepositoryImpl> {
    GroupsServiceImpl::new(GroupRepositoryImpl::new())
}

/// One user, `organizations` organizations, and one workspace for each entry
/// of `workspace_owners`, in that order.
fn with_workspaces(organizations: i32, workspace_owners: &[i32]) -> ContextRouter {
    let mut ctx = ContextRouter::new(Database::new());
    let now = Timestamp::new(1, 0);
    UserServiceImpl::new(UserRepositoryImpl::new())
        .create_user(&mut ctx, CreateUserDto { name: "Ana".to_string(), email: "a@x.com".to_string() }, now)
        .unwrap();
    let service = OrganizationServiceImpl::new(OrganizationRepositoryImpl::new());
    for i in 0..organizations {
        service
            .create_organization(
                &mut ctx,
                CreateOrganizationDto { name: format!("org {}", i + 1), user_id: 1 },
                now,
            )
            .unwrap();
    }
    let service = WorkspaceServiceImpl::new(WorkspaceRepositoryImpl::new());
    for owner in workspace_owners {
        service
            .create_workspace(
                &mut ctx,
                CreateWorkspaceDto { name: "ws".to_string(), organization_id: *owner },
                now,
            )
            .unwrap();
    }
    ctx
}

fn links(workspace_id: i32) -> CreateGroupsDto {
    CreateGroupsDto { name: "Links".to_string(), workspace_id }
}

#[test]
fn create_group_returns_what_was_sent() {
    let mut ctx = with_workspaces(1, &[1, 1]);
    let now = Timestamp::new(8, 8);
    let created = service().create_group(&mut ctx, links(2), now).unwrap();
    assert_eq!(
        created,
        GroupsDto { id: 1, name: "Links".to_string(), workspace_id: 2, created_at: now, updated_at: now }
    );
    assert_eq!(service().get_group_by_id(&ctx, 1), Ok(created));
}

#[test]
fn create_group_for_a_missing_workspace_fails() {
    let mut ctx = with_workspaces(1, &[]);
    assert_eq!(
        service().create_group(&mut ctx, links(1), Timestamp::new(1, 0)),
        Err(ServiceError::DatabaseFailure(DbError::ForeignKeyViolation(Entity::Group)))
    );
    assert_eq!(service().list_groups(&ctx), Ok(vec![]));
}

#[test]
fn update_group_changes_only_what_is_present() {
    let mut ctx = with_workspaces(1, &[1, 1]);
    let then = Timestamp::new(10, 0);
    let now = Timestamp::new(10, 1);
    let before = service().create_group(&mut ctx, links(1), then).unwrap();
    let change = UpdateGroupsDto { id: Some(1), name: None, workspace_id: Some(2) };
    let after = service().update_group(&mut ctx, change, now).unwrap();
    assert_eq!(after, GroupsDto { workspace_id: 2, updated_at: now, ..before.clone() });
    assert!(before.updated_at.is_before(&after.updated_at));
    assert_eq!(service().get_group_by_id(&ctx, 1), Ok(after));
}

#[test]
fn update_group_without_id_is_refused_and_writes_nothing() {
    let mut ctx = with_workspaces(1, &[1]);
    let before = service().create_group(&mut ctx, links(1), Timestamp::new(1, 0)).unwrap();
    let change = UpdateGroupsDto { id: None, name: Some("Docs".to_string()), workspace_id: None };
    assert_eq!(
        service().update_group(&mut ctx, change, Timestamp::new(2, 0)),
        Err(ServiceError::ValidationError(Entity::Group))
    );
    assert_eq!(service().list_groups(&ctx), Ok(vec![before]));
}

#[test]
fn update_of_a_missing_group_is_not_found() {
    let mut ctx = with_workspaces(1, &[1]);
    let change = UpdateGroupsDto { id: Some(4), name: None, workspace_id: None };
    assert_eq!(
        service().update_group(&mut ctx, change, Timestamp::new(2, 0)),
        Err(ServiceError::NotFound(DbError::RecordNotFound(Entity::Group)))
    );
}

#[test]
fn delete_of_a_missing_group_succeeds_and_changes_nothing() {
    let mut ctx = with_workspaces(1, &[1]);
    let kept = service().create_group(&mut ctx, links(1), Timestamp::new(1, 0)).unwrap();
    let repository = GroupRepositoryImpl::new();
    assert_eq!(repository.get_group_by_id(&ctx.db, 2), Ok(None));
    assert_eq!(service().delete_group(&mut ctx, 2), Ok(()));
    assert_eq!(repository.get_group_by_id(&ctx.db, 2), Ok(None));
    assert_eq!(service().list_groups(&ctx), Ok(vec![kept]));
}

#[test]
fn groups_of_one_workspace() {
    let mut ctx = with_workspaces(1, &[1, 1, 1]);
    let now = Timestamp::new(1, 0);
    let a = service().create_group(&mut ctx, links(1), now).unwrap();
    let b = service().create_group(&mut ctx, links(2), now).unwrap();
    let c = service().create_group(&mut ctx, links(1), now).unwrap();
    assert_eq!(service().list_belonged_groups(&ctx, 1), Ok(vec![a.clone(), c.clone()]));
    assert_eq!(service().list_belonged_groups(&ctx, 2), Ok(vec![b.clone()]));
    assert_eq!(service().list_belonged_groups(&ctx, 3), Ok(vec![]));
    assert_eq!(service().list_belonged_groups(&ctx, 9), Ok(vec![]));
    assert_eq!(service().list_groups(&ctx), Ok(vec![a, b, c]));
    let rows = GroupRepositoryImpl::new().find_by_workspace_id(&ctx.db, 1).unwrap();
    assert_eq!(rows.iter().map(|g| g.id).collect::<Vec<i32>>(), vec![1, 3]);
}

#[test]
fn belonged_groups_of_workspace_5_in_organization_9() {
    // Workspaces 1 to 4 belong to organization 1, workspace 5 to organization 9,
    // workspace 6 to organization 9 as well.
    let mut ctx = with_workspaces(9, &[1, 1, 1, 1, 9, 9]);
    let now = Timestamp::new(1, 0);
    let in_five = service().create_group(&mut ctx, links(5), now).unwrap();
    service().create_group(&mut ctx, links(4), now).unwrap();
    service().create_group(&mut ctx, links(6), now).unwrap();
    let also_in_five = service()
        .create_group(&mut ctx, CreateGroupsDto { name: "More".to_string(), workspace_id: 5 }, now)
        .unwrap();
    let repository = GroupRepositoryImpl::new();
    let found = repository.find_belonged_groups(&ctx.db, 5, 9).unwrap();
    assert_eq!(
        found.into_iter().map(GroupsDto::from).collect::<Vec<GroupsDto>>(),
        vec![in_five, also_in_five]
    );
    for group in repository.find_belonged_groups(&ctx.db, 5, 9).unwrap() {
        assert_eq!(group.workspace_id, 5);
        assert_eq!(ctx.db.find_workspace_by_id(group.workspace_id).unwrap().organization_id, 9);
    }
}

#[test]
fn belonged_groups_are_none_when_the_workspace_is_of_another_organization() {
    let mut ctx = with_workspaces(9, &[1, 1, 1, 1, 8]);
    let now = Timestamp::new(1, 0);
    service().create_group(&mut ctx, links(5), now).unwrap();
    let repository = GroupRepositoryImpl::new();
    assert_eq!(repository.find_belonged_groups(&ctx.db, 5, 9), Ok(vec![]));
    assert_eq!(repository.find_belonged_groups(&ctx.db, 5, 8).unwrap().len(), 1);
    assert_eq!(repository.find_belonged_groups(&ctx.db, 7, 9), Ok(vec![]));
    assert_eq!(repository.find_belonged_groups(&ctx.db, 4, 1), Ok(vec![]));
}

#[test]
fn a_group_reduced_to_id_and_name() {
    let t = Timestamp::new(1, 1);
    let row = Model { id: 4, name: "Links".to_string(), workspace_id: 2, created_at: t, updated_at: t };
    assert_eq!(
        GroupsByWorkspaceOrg::from(row.clone()),
        GroupsByWorkspaceOrg { id: 4, name: "Links".to_string() }
    );
    assert_eq!(
        GroupsDto::from(row),
        GroupsDto { id: 4, name: "Links".to_string(), workspace_id: 2, created_at: t, updated_at: t }
    );
}
