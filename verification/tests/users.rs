use bookmarks::database::Database;
use bookmarks::dto::user::{CreateUserDto, UpdateUserDto, UserDto};
use bookmarks::entity::user::{ActiveModel, Model};
use bookmarks::entity::{ActiveValue, Entity};
use bookmarks::error::{DbError, ServiceError};
use bookmarks::repository::user_repository::{UserRepository, UserRepositoryImpl};
use bookmarks::router::ContextRouter;
use bookmarks::service::user_service::{found, UserService, UserServiceImpl};
use bookmarks::time::Timestamp;

fn service() -> UserServiceImpl<UserRepositoryImpl> {
    UserServiceImpl::new(UserRepositoryImpl::new())
}

fn ana() -> CreateUserDto {
    CreateUserDto { name: "Ana".to_string(), email: "a@x.com".to_string() }
}

#[test]
fn create_user_returns_what_was_sent() {
    let mut ctx = ContextRouter::new(Database::new());
    let now = Timestamp::new(1_700_000_000, 250);
    let created = service().create_user(&mut ctx, ana(), now).unwrap();
    assert_eq!(
        created,
        UserDto {
            id: 1,
            name: "Ana".to_string(),
            email: "a@x.com".to_string(),
            created_at: now,
            updated_at: now,
        }
    );
    assert_eq!(created.created_at, created.updated_at);
    assert_eq!(service().get_user_by_id(&ctx, 1), Ok(created));
}

#[test]
fn user_ids_count_up_and_are_not_used_again() {
    let mut ctx = ContextRouter::new(Database::new());
    let now = Timestamp::new(10, 0);
    let first = service().create_user(&mut ctx, ana(), now).unwrap();
    let second = service().create_user(&mut ctx, ana(), now).unwrap();
    assert_eq!((first.id, second.id), (1, 2));
    assert_eq!(service().delete_user(&mut ctx, 2), Ok(()));
    let third = service().create_user(&mut ctx, ana(), now).unwrap();
    assert_eq!(third.id, 3);
}

#[test]
fn update_user_changes_only_what_is_present() {
    let mut ctx = ContextRouter::new(Database::new());
    let then = Timestamp::new(100, 0);
    let now = Timestamp::new(100, 1);
    let before = service().create_user(&mut ctx, ana(), then).unwrap();
    let change = UpdateUserDto { id: Some(before.id), name: None, email: Some("ana@x.com".to_string()) };
    let after = service().update_user(&mut ctx, change, now).unwrap();
    assert_eq!(
        after,
        UserDto {
            id: 1,
            name: "Ana".to_string(),
            email: "ana@x.com".to_string(),
            created_at: then,
            updated_at: now,
        }
    );
    assert!(before.updated_at.is_before(&after.updated_at));
    assert_eq!(service().get_user_by_id(&ctx, 1), Ok(after));
}

#[test]
fn update_user_with_nothing_present_still_stamps_the_time() {
    let mut ctx = ContextRouter::new(Database::new());
    let then = Timestamp::new(100, 0);
    let now = Timestamp::new(200, 0);
    let before = service().create_user(&mut ctx, ana(), then).unwrap();
    let change = UpdateUserDto { id: Some(1), name: None, email: None };
    let after = service().update_user(&mut ctx, change, now).unwrap();
    assert_eq!(after, UserDto { updated_at: now, ..before });
}

#[test]
fn update_user_without_id_is_refused_and_writes_nothing() {
    let mut ctx = ContextRouter::new(Database::new());
    let then = Timestamp::new(100, 0);
    let before = service().create_user(&mut ctx, ana(), then).unwrap();
    let change = UpdateUserDto { id: None, name: Some("Bea".to_string()), email: None };
    let refused = service().update_user(&mut ctx, change, Timestamp::new(200, 0));
    assert_eq!(refused, Err(ServiceError::ValidationError(Entity::User)));
    assert_eq!(service().list_users(&ctx), Ok(vec![before]));
}

#[test]
fn update_user_without_id_is_refused_even_in_an_empty_store() {
    let mut ctx = ContextRouter::new(Database::new());
    let change = UpdateUserDto { id: None, name: None, email: None };
    let refused = service().update_user(&mut ctx, change, Timestamp::new(1, 0));
    assert_eq!(refused, Err(ServiceError::ValidationError(Entity::User)));
    assert_ne!(refused, Err(ServiceError::NotFound(DbError::RecordNotFound(Entity::User))));
}

#[test]
fn update_of_a_missing_user_is_not_found() {
    let mut ctx = ContextRouter::new(Database::new());
    let change = UpdateUserDto { id: Some(7), name: Some("Bea".to_string()), email: None };
    let missing = service().update_user(&mut ctx, change, Timestamp::new(1, 0));
    assert_eq!(missing, Err(ServiceError::NotFound(DbError::RecordNotFound(Entity::User))));
    assert_eq!(service().list_users(&ctx), Ok(vec![]));
}

#[test]
fn get_of_a_missing_user_is_not_found() {
    let ctx = ContextRouter::new(Database::new());
    assert_eq!(
        service().get_user_by_id(&ctx, 1),
        Err(ServiceError::NotFound(DbError::RecordNotFound(Entity::User)))
    );
}

#[test]
fn delete_of_a_missing_user_succeeds_and_changes_nothing() {
    let mut ctx = ContextRouter::new(Database::new());
    let kept = service().create_user(&mut ctx, ana(), Timestamp::new(1, 0)).unwrap();
    let repository = UserRepositoryImpl::new();
    assert_eq!(repository.get_user_by_id(&ctx.db, 42), Ok(None));
    assert_eq!(service().delete_user(&mut ctx, 42), Ok(()));
    assert_eq!(repository.get_user_by_id(&ctx.db, 42), Ok(None));
    assert_eq!(service().delete_user(&mut ctx, 42), Ok(()));
    assert_eq!(service().list_users(&ctx), Ok(vec![kept]));
}

#[test]
fn delete_user_removes_the_user() {
    let mut ctx = ContextRouter::new(Database::new());
    service().create_user(&mut ctx, ana(), Timestamp::new(1, 0)).unwrap();
    assert_eq!(service().delete_user(&mut ctx, 1), Ok(()));
    assert_eq!(UserRepositoryImpl::new().get_user_by_id(&ctx.db, 1), Ok(None));
    assert_eq!(service().list_users(&ctx), Ok(vec![]));
}

#[test]
fn list_users_is_in_the_order_of_the_inserts() {
    let mut ctx = ContextRouter::new(Database::new());
    let now = Timestamp::new(1, 0);
    let a = service().create_user(&mut ctx, ana(), now).unwrap();
    let b = service()
        .create_user(&mut ctx, CreateUserDto { name: "Bea".to_string(), email: "b@x.com".to_string() }, now)
        .unwrap();
    assert_eq!(service().list_users(&ctx), Ok(vec![a, b]));
}

#[test]
fn repository_create_user_reads_the_row_back() {
    let mut db = Database::new();
    let now = Timestamp::new(5, 6);
    let row = UserRepositoryImpl::new().create_user(&mut db, ana().into_active_model(now)).unwrap();
    assert_eq!(
        row,
        Model { id: 1, name: "Ana".to_string(), email: "a@x.com".to_string(), created_at: now, updated_at: now }
    );
    assert_eq!(db.find_user_by_id(1), Some(row));
}

#[test]
fn insert_user_without_a_name_is_refused() {
    let mut db = Database::new();
    let mut input = ana().into_active_model(Timestamp::new(1, 0));
    input.name = ActiveValue::NotSet;
    assert_eq!(db.insert_user(input), Err(DbError::AttrNotSet(Entity::User)));
    assert_eq!(db.all_users(), vec![]);
}

#[test]
fn insert_user_with_a_key_is_refused() {
    let mut db = Database::new();
    let mut input = ana().into_active_model(Timestamp::new(1, 0));
    input.id = ActiveValue::Changed(9);
    assert_eq!(db.insert_user(input), Err(DbError::PrimaryKeyStaged(Entity::User)));
    assert_eq!(db.all_users(), vec![]);
}

#[test]
fn update_user_without_a_key_is_refused() {
    let mut db = Database::new();
    db.insert_user(ana().into_active_model(Timestamp::new(1, 0))).unwrap();
    let mut change = ActiveModel::new();
    change.name = ActiveValue::Changed("Bea".to_string());
    assert_eq!(db.update_user(change), Err(DbError::UpdateGetPrimaryKey(Entity::User)));
    assert_eq!(db.find_user_by_id(1).unwrap().name, "Ana");
}

#[test]
fn update_user_writes_changed_columns_only() {
    let mut db = Database::new();
    let then = Timestamp::new(1, 0);
    db.insert_user(ana().into_active_model(then)).unwrap();
    let change = ActiveModel {
        id: ActiveValue::Unchanged(1),
        name: ActiveValue::Unchanged("ignored".to_string()),
        email: ActiveValue::Changed("new@x.com".to_string()),
        created_at: ActiveValue::NotSet,
        updated_at: ActiveValue::NotSet,
    };
    let row = db.update_user(change).unwrap();
    assert_eq!(
        row,
        Model { id: 1, name: "Ana".to_string(), email: "new@x.com".to_string(), created_at: then, updated_at: then }
    );
    assert_eq!(db.find_user_by_id(1), Some(row));
}

#[test]
fn user_dto_is_the_row() {
    let t = Timestamp::new(3, 4);
    let row = Model { id: 8, name: "N".to_string(), email: "E".to_string(), created_at: t, updated_at: t };
    assert_eq!(
        UserDto::from(row),
        UserDto { id: 8, name: "N".to_string(), email: "E".to_string(), created_at: t, updated_at: t }
    );
}

#[test]
fn update_user_dto_applies_to_a_staged_row() {
    let t = Timestamp::new(3, 4);
    let now = Timestamp::new(9, 9);
    let row = Model { id: 8, name: "N".to_string(), email: "E".to_string(), created_at: t, updated_at: t };
    let change = UpdateUserDto { id: Some(8), name: Some("M".to_string()), email: None };
    let staged = change.apply_to_model(row.into_active_model(), now);
    assert_eq!(
        staged,
        ActiveModel {
            id: ActiveValue::Unchanged(8),
            name: ActiveValue::Changed("M".to_string()),
            email: ActiveValue::Unchanged("E".to_string()),
            created_at: ActiveValue::Unchanged(t),
            updated_at: ActiveValue::Changed(now),
        }
    );
}

#[test]
fn what_a_lookup_found_is_the_answer() {
    let t = Timestamp::new(3, 4);
    let row = Model { id: 8, name: "N".to_string(), email: "E".to_string(), created_at: t, updated_at: t };
    assert_eq!(found(Some(row.clone())), Ok(UserDto::from(row)));
    assert_eq!(found(None), Err(ServiceError::NotFound(DbError::RecordNotFound(Entity::User))));
}
