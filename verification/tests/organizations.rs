use bookmarks::database::Database;
use bookmarks::dto::organization::{CreateOrganizationDto, OrganizationDto, UpdateOrganizationDto};
use bookmarks::dto::user::CreateUserDto;
use bookmarks::entity::organization::{ActiveModel, Model};
use bookmarks::entity::{ActiveValue, Entity};
use bookmarks::error::{DbError, ServiceError};
use bookmarks::repository::organization_repository::{
    OrganizationRepository, OrganizationRepositoryImpl,
};
use bookmarks::repository::user_repository::UserRepositoryImpl;
use bookmarks::router::ContextRouter;
use bookmarks::service::organization_service::{OrganizationService, OrganizationServiceImpl};
use bookmarks::service::user_service::{UserService, UserServiceImpl};
use bookmarks::time::Timestamp;

fn service() -> OrganizationServiceImpl<OrganizationRepositoryImpl> {
    OrganizationServiceImpl::new(OrganizationRepositoryImpl::new())
}

fn with_users(count: i32) -> ContextRouter {
    let mut ctx = ContextRouter::new(Database::new());
    let users = UserServiceImpl::new(UserRepositoryImpl::new());
    for i in 0..count {
        users
            .create_user(
                &mut ctx,
                CreateUserDto { name: format!("user {}", i + 1), email: format!("u{}@x.com", i + 1) },
                Timestamp::new(1, 0),
            )
            .unwrap();
    }
    ctx
}

fn acme(user_id: i32) -> CreateOrganizationDto {
    CreateOrganizationDto { name: "Acme".to_string(), user_id }
}

#[test]
fn create_organization_returns_what_was_sent() {
    let mut ctx = with_users(2);
    let now = Timestamp::new(50, 5);
    let created = service().create_organization(&mut ctx, acme(2), now).unwrap();
    assert_eq!(
        created,
        OrganizationDto {
            id: 1,
            name: "Acme".to_string(),
            user_id: 2,
            created_at: now,
            updated_at: now,
            deleted_at: None,
        }
    );
    assert_eq!(service().get_organization_by_id(&ctx, 1), Ok(created));
}

#[test]
fn create_organization_for_a_missing_user_fails() {
    let mut ctx = with_users(1);
    let failed = service().create_organization(&mut ctx, acme(2), Timestamp::new(1, 0));
    assert_eq!(
        failed,
        Err(ServiceError::DatabaseFailure(DbError::ForeignKeyViolation(Entity::Organization)))
    );
    assert_eq!(service().list_organizations(&ctx), Ok(vec![]));
}

#[test]
fn update_organization_changes_only_what_is_present() {
    let mut ctx = with_users(2);
    let then = Timestamp::new(50, 0);
    let now = Timestamp::new(51, 0);
    let before = service().create_organization(&mut ctx, acme(1), then).unwrap();
    let change = UpdateOrganizationDto { id: Some(1), name: Some("Apex".to_string()), user_id: None };
    let after = service().update_organization(&mut ctx, change, now).unwrap();
    assert_eq!(after, OrganizationDto { name: "Apex".to_string(), updated_at: now, ..before.clone() });
    assert!(before.updated_at.is_before(&after.updated_at));
    let moved = UpdateOrganizationDto { id: Some(1), name: None, user_id: Some(2) };
    let later = Timestamp::new(52, 0);
    let after = service().update_organization(&mut ctx, moved, later).unwrap();
    assert_eq!(
        after,
        OrganizationDto { name: "Apex".to_string(), user_id: 2, updated_at: later, ..before }
    );
}

#[test]
fn update_organization_to_a_missing_user_fails_and_writes_nothing() {
    let mut ctx = with_users(1);
    let before = service().create_organization(&mut ctx, acme(1), Timestamp::new(1, 0)).unwrap();
    let change = UpdateOrganizationDto { id: Some(1), name: Some("Apex".to_string()), user_id: Some(9) };
    let failed = service().update_organization(&mut ctx, change, Timestamp::new(2, 0));
    assert_eq!(
        failed,
        Err(ServiceError::DatabaseFailure(DbError::ForeignKeyViolation(Entity::Organization)))
    );
    assert_eq!(service().get_organization_by_id(&ctx, 1), Ok(before));
}

#[test]
fn update_organization_without_id_is_refused_and_writes_nothing() {
    let mut ctx = with_users(1);
    let before = service().create_organization(&mut ctx, acme(1), Timestamp::new(1, 0)).unwrap();
    let change = UpdateOrganizationDto { id: None, name: Some("Apex".to_string()), user_id: None };
    assert_eq!(
        service().update_organization(&mut ctx, change, Timestamp::new(2, 0)),
        Err(ServiceError::ValidationError(Entity::Organization))
    );
    assert_eq!(service().list_organizations(&ctx), Ok(vec![before]));
}

#[test]
fn update_of_a_missing_organization_is_not_found() {
    let mut ctx = with_users(1);
    let change = UpdateOrganizationDto { id: Some(3), name: None, user_id: None };
    assert_eq!(
        service().update_organization(&mut ctx, change, Timestamp::new(2, 0)),
        Err(ServiceError::NotFound(DbError::RecordNotFound(Entity::Organization)))
    );
}

#[test]
fn get_of_a_missing_organization_is_not_found() {
    let ctx = with_users(1);
    assert_eq!(
        service().get_organization_by_id(&ctx, 1),
        Err(ServiceError::NotFound(DbError::RecordNotFound(Entity::Organization)))
    );
}

#[test]
fn organizations_of_one_user() {
    let mut ctx = with_users(3);
    let now = Timestamp::new(1, 0);
    let a = service().create_organization(&mut ctx, acme(1), now).unwrap();
    let b = service().create_organization(&mut ctx, acme(2), now).unwrap();
    let c = service().create_organization(&mut ctx, acme(1), now).unwrap();
    assert_eq!(service().get_organization_by_user_id(&ctx, 1), Ok(vec![a.clone(), c.clone()]));
    assert_eq!(service().get_organization_by_user_id(&ctx, 2), Ok(vec![b.clone()]));
    assert_eq!(service().get_organization_by_user_id(&ctx, 3), Ok(vec![]));
    assert_eq!(service().get_organization_by_user_id(&ctx, 4), Ok(vec![]));
    assert_eq!(service().list_organizations(&ctx), Ok(vec![a, b, c]));
}

#[test]
fn delete_of_a_missing_organization_succeeds_and_changes_nothing() {
    let mut ctx = with_users(1);
    let kept = service().create_organization(&mut ctx, acme(1), Timestamp::new(1, 0)).unwrap();
    let repository = OrganizationRepositoryImpl::new();
    assert_eq!(repository.get_organization_by_id(&ctx.db, 5), Ok(None));
    assert_eq!(service().delete_organization(&mut ctx, 5), Ok(()));
    assert_eq!(repository.get_organization_by_id(&ctx.db, 5), Ok(None));
    assert_eq!(service().list_organizations(&ctx), Ok(vec![kept]));
}

#[test]
fn repository_update_organization_reads_the_row_back() {
    let mut db = with_users(2).db;
    let then = Timestamp::new(1, 0);
    let repository = OrganizationRepositoryImpl::new();
    repository.create_organization(&mut db, acme(1).into_active_model(then)).unwrap();
    let mut change = ActiveModel::new();
    change.user_id = ActiveValue::Changed(2);
    let row = repository.update_organization(&mut db, 1, change).unwrap();
    assert_eq!(
        row,
        Model { id: 1, name: "Acme".to_string(), user_id: 2, created_at: then, updated_at: then, deleted_at: None }
    );
    assert_eq!(repository.get_organization_by_id(&db, 1), Ok(Some(row)));
    assert_eq!(
        repository.update_organization(&mut db, 2, ActiveModel::new()),
        Err(DbError::RecordNotFound(Entity::Organization))
    );
}

#[test]
fn insert_organization_keeps_a_staged_deletion_mark() {
    let mut db = with_users(1).db;
    let mut input = acme(1).into_active_model(Timestamp::new(1, 0));
    input.deleted_at = ActiveValue::Changed(Some(Timestamp::new(9, 0)));
    db.insert_organization(input).unwrap();
    let row = db.find_organization_by_id(1).unwrap();
    assert_eq!(row.deleted_at, Some(Timestamp::new(9, 0)));
    assert_eq!(OrganizationDto::from(row).deleted_at, Some(Timestamp::new(9, 0)));
}
