use bookmarks::entity::Entity;
use bookmarks::error::{DbError, ServiceError};
use bookmarks::router::{Error, ErrorCode, Fault};
use bookmarks::service::required_id;
use bookmarks::service::{bookmark_service, group_service, organization_service, workspace_service};

#[test]
fn words_for_the_kinds_of_row() {
    assert_eq!(Entity::User.name(), "User");
    assert_eq!(Entity::Organization.name(), "Organization");
    assert_eq!(Entity::Workspace.name(), "Workspace");
    assert_eq!(Entity::Group.name(), "Group");
    assert_eq!(Entity::Bookmark.name(), "Bookmark");
}

#[test]
fn words_for_the_errors_of_the_store() {
    assert_eq!(DbError::RecordNotFound(Entity::Bookmark).message(), "Bookmark not found");
    assert_eq!(DbError::RecordNotFound(Entity::Group).message(), "Group not found");
    assert_eq!(DbError::AttrNotSet(Entity::User).message(), "User: a required column is not set");
    assert_eq!(
        DbError::PrimaryKeyStaged(Entity::Workspace).message(),
        "Workspace: the primary key is generated"
    );
    assert_eq!(
        DbError::UpdateGetPrimaryKey(Entity::Organization).message(),
        "Organization: the primary key is not set"
    );
    assert_eq!(
        DbError::ForeignKeyViolation(Entity::Bookmark).message(),
        "Bookmark: the parent row does not exist"
    );
    assert_eq!(DbError::KeysExhausted(Entity::User).message(), "User: no primary key is left");
    assert_eq!(DbError::Migration(Entity::Group).message(), "Group: the migration cannot be applied");
    assert_eq!(
        DbError::Driver { not_found: false, message: "connection reset".to_string() }.message(),
        "connection reset"
    );
}

#[test]
fn which_errors_of_the_store_say_that_a_row_is_missing() {
    assert!(DbError::RecordNotFound(Entity::User).is_not_found());
    assert!(DbError::Driver { not_found: true, message: String::new() }.is_not_found());
    assert!(!DbError::Driver { not_found: false, message: String::new() }.is_not_found());
    assert!(!DbError::AttrNotSet(Entity::User).is_not_found());
    assert!(!DbError::PrimaryKeyStaged(Entity::User).is_not_found());
    assert!(!DbError::UpdateGetPrimaryKey(Entity::User).is_not_found());
    assert!(!DbError::ForeignKeyViolation(Entity::User).is_not_found());
    assert!(!DbError::KeysExhausted(Entity::User).is_not_found());
    assert!(!DbError::Migration(Entity::User).is_not_found());
}

#[test]
fn a_service_reports_a_missing_row_as_not_found_and_the_rest_as_failures() {
    assert_eq!(
        ServiceError::from_db_err(DbError::RecordNotFound(Entity::Group)),
        ServiceError::NotFound(DbError::RecordNotFound(Entity::Group))
    );
    assert_eq!(
        ServiceError::from_db_err(DbError::ForeignKeyViolation(Entity::Group)),
        ServiceError::DatabaseFailure(DbError::ForeignKeyViolation(Entity::Group))
    );
    assert_eq!(
        ServiceError::from_db_err(DbError::KeysExhausted(Entity::Group)),
        ServiceError::DatabaseFailure(DbError::KeysExhausted(Entity::Group))
    );
    assert_eq!(
        ServiceError::at_startup(DbError::RecordNotFound(Entity::Group)),
        ServiceError::ConnectionFailure(DbError::RecordNotFound(Entity::Group))
    );
    assert_eq!(
        ServiceError::at_startup(DbError::Migration(Entity::User)),
        ServiceError::ConnectionFailure(DbError::Migration(Entity::User))
    );
}

#[test]
fn errors_of_the_driver_keep_their_words() {
    let missing = sea_orm::DbErr::RecordNotFound("Group not found".to_string());
    assert_eq!(
        DbError::from_driver(missing),
        DbError::Driver {
            not_found: true,
            message: "RecordNotFound Error: Group not found".to_string(),
        }
    );
    let custom = sea_orm::DbErr::Custom("boom".to_string());
    assert_eq!(
        DbError::from_driver(custom),
        DbError::Driver { not_found: false, message: "Custom Error: boom".to_string() }
    );
    assert_eq!(
        DbError::from_driver(sea_orm::DbErr::RecordNotUpdated),
        DbError::Driver { not_found: false, message: "None of the records are updated".to_string() }
    );
    assert_eq!(
        ServiceError::from_driver(sea_orm::DbErr::RecordNotFound("gone".to_string())),
        ServiceError::NotFound(DbError::Driver {
            not_found: true,
            message: "RecordNotFound Error: gone".to_string(),
        })
    );
    assert_eq!(
        ServiceError::from_driver(sea_orm::DbErr::AttrNotSet("name".to_string())),
        ServiceError::DatabaseFailure(DbError::Driver {
            not_found: false,
            message: "Attribute name is NotSet".to_string(),
        })
    );
    assert_eq!(
        ServiceError::from_driver(sea_orm::DbErr::Custom("x".to_string())).message(),
        "Custom Error: x"
    );
}

#[test]
fn words_for_the_errors_of_a_service() {
    assert_eq!(
        ServiceError::ValidationError(Entity::Bookmark).message(),
        "Bookmark ID is required for update"
    );
    assert_eq!(ServiceError::ValidationError(Entity::User).message(), "User ID is required for update");
    assert_eq!(
        ServiceError::NotFound(DbError::RecordNotFound(Entity::Workspace)).message(),
        "Workspace not found"
    );
    assert_eq!(
        ServiceError::DatabaseFailure(DbError::ForeignKeyViolation(Entity::Group)).message(),
        "Group: the parent row does not exist"
    );
    assert_eq!(
        ServiceError::ConnectionFailure(DbError::Driver {
            not_found: false,
            message: "refused".to_string()
        })
        .message(),
        "refused"
    );
}

#[test]
fn codes_for_the_errors_of_a_service() {
    let refused = Error::from_service(ServiceError::ValidationError(Entity::User));
    assert_eq!(
        refused,
        Error { code: ErrorCode::BadRequest, fault: Fault::Service(ServiceError::ValidationError(Entity::User)) }
    );
    assert_eq!(refused.message(), "User ID is required for update");
    for e in [
        ServiceError::NotFound(DbError::RecordNotFound(Entity::User)),
        ServiceError::DatabaseFailure(DbError::ForeignKeyViolation(Entity::Group)),
        ServiceError::ConnectionFailure(DbError::Migration(Entity::User)),
    ] {
        let words = e.message();
        let error = Error::from_service(e);
        assert_eq!(error.code, ErrorCode::InternalServerError);
        assert_eq!(error.message(), words);
    }
}

#[test]
fn errors_of_the_router_itself() {
    assert_eq!(Error::bad_input(), Error { code: ErrorCode::BadRequest, fault: Fault::InvalidInput });
    assert_eq!(Error::bad_input().message(), "The input does not fit the procedure");
    assert_eq!(Error::no_procedure(), Error { code: ErrorCode::NotFound, fault: Fault::UnknownProcedure });
    assert_eq!(Error::no_procedure().message(), "No such procedure");
}

#[test]
fn an_update_needs_an_id() {
    assert_eq!(required_id(Some(7), Entity::Group), Ok(7));
    assert_eq!(required_id(Some(-1), Entity::Group), Ok(-1));
    assert_eq!(required_id(None, Entity::Group), Err(ServiceError::ValidationError(Entity::Group)));
}

#[test]
fn a_lookup_that_found_nothing_is_not_found_for_every_kind_of_row() {
    assert_eq!(
        organization_service::found(None),
        Err(ServiceError::NotFound(DbError::RecordNotFound(Entity::Organization)))
    );
    assert_eq!(
        workspace_service::found(None),
        Err(ServiceError::NotFound(DbError::RecordNotFound(Entity::Workspace)))
    );
    assert_eq!(
        group_service::found(None),
        Err(ServiceError::NotFound(DbError::RecordNotFound(Entity::Group)))
    );
    assert_eq!(
        bookmark_service::found(None),
        Err(ServiceError::NotFound(DbError::RecordNotFound(Entity::Bookmark)))
    );
}
