use bookmarks::database::Database;
use bookmarks::db::{establish_connection, PoolOptions};
use bookmarks::entity::Entity;
use bookmarks::error::DbError;
use bookmarks::migration::m20250711_115931_create_bookmark;
use bookmarks::migration::m20250711_115936_create_groups;
use bookmarks::migration::m20250711_115943_create_organization;
use bookmarks::migration::m20250711_115948_create_workspace;
use bookmarks::migration::m20250712_104206_create_user;
use bookmarks::migration::{
    boolean, integer, pk_auto, string, timestamp, Column, ColumnDef, ColumnType, ForeignKey,
    ForeignKeyAction, Migrator, SchemaManager, Step, TableCreateStatement, TableDropStatement,
    TableInfo,
};

fn info(table: Entity, references: Option<Entity>) -> TableInfo {
    TableInfo { table, references }
}

fn all_tables() -> Vec<TableInfo> {
    vec![
        info(Entity::User, None),
        info(Entity::Organization, Some(Entity::User)),
        info(Entity::Workspace, Some(Entity::Organization)),
        info(Entity::Group, Some(Entity::Workspace)),
        info(Entity::Bookmark, Some(Entity::Group)),
    ]
}

#[test]
fn migrations_run_in_the_order_of_the_references() {
    assert_eq!(
        Migrator::migrations(),
        vec![
            Step::CreateUser,
            Step::CreateOrganization,
            Step::CreateWorkspace,
            Step::CreateGroups,
            Step::CreateBookmark,
        ]
    );
}

#[test]
fn migrating_an_empty_database_creates_the_five_tables() {
    let mut manager = SchemaManager::new();
    assert_eq!(manager.applied(), 0);
    assert_eq!(Migrator::up(&mut manager), Ok(()));
    assert_eq!(manager.applied(), 5);
    assert_eq!(manager.tables(), &all_tables());
    for table in [Entity::User, Entity::Organization, Entity::Workspace, Entity::Group, Entity::Bookmark] {
        assert!(manager.has_table(table));
    }
}

#[test]
fn each_migration_runs_once() {
    let mut manager = SchemaManager::new();
    assert_eq!(Migrator::up(&mut manager), Ok(()));
    assert_eq!(Migrator::up(&mut manager), Ok(()));
    assert_eq!(manager.applied(), 5);
    assert_eq!(manager.tables(), &all_tables());
}

#[test]
fn undoing_the_migrations_drops_the_tables() {
    let mut manager = SchemaManager::new();
    assert_eq!(Migrator::up(&mut manager), Ok(()));
    assert_eq!(Migrator::down(&mut manager), Ok(()));
    assert_eq!(manager.applied(), 0);
    assert_eq!(manager.tables(), &vec![]);
    assert_eq!(Migrator::down(&mut manager), Ok(()));
    assert_eq!(Migrator::up(&mut manager), Ok(()));
    assert_eq!(manager.tables(), &all_tables());
}

#[test]
fn a_table_cannot_be_created_before_the_table_it_refers_to() {
    let mut manager = SchemaManager::new();
    assert_eq!(Step::CreateBookmark.up(&mut manager), Err(DbError::Migration(Entity::Bookmark)));
    assert_eq!(Step::CreateOrganization.up(&mut manager), Err(DbError::Migration(Entity::Organization)));
    assert_eq!(manager.tables(), &vec![]);
    assert_eq!(Step::CreateUser.up(&mut manager), Ok(()));
    assert_eq!(Step::CreateWorkspace.up(&mut manager), Err(DbError::Migration(Entity::Workspace)));
    assert_eq!(Step::CreateOrganization.up(&mut manager), Ok(()));
    assert_eq!(
        manager.tables(),
        &vec![info(Entity::User, None), info(Entity::Organization, Some(Entity::User))]
    );
}

#[test]
fn a_table_that_is_referred_to_cannot_be_dropped() {
    let mut manager = SchemaManager::new();
    assert_eq!(Migrator::up(&mut manager), Ok(()));
    assert_eq!(Step::CreateUser.down(&mut manager), Err(DbError::Migration(Entity::User)));
    assert_eq!(Step::CreateGroups.down(&mut manager), Err(DbError::Migration(Entity::Group)));
    assert_eq!(manager.tables(), &all_tables());
    assert_eq!(Step::CreateBookmark.down(&mut manager), Ok(()));
    assert_eq!(Step::CreateGroups.down(&mut manager), Ok(()));
    assert_eq!(manager.tables(), &all_tables()[..3].to_vec());
    assert_eq!(Step::CreateGroups.down(&mut manager), Err(DbError::Migration(Entity::Group)));
}

#[test]
fn undoing_stops_at_a_table_that_is_gone() {
    let mut manager = SchemaManager::new();
    assert_eq!(Migrator::up(&mut manager), Ok(()));
    assert_eq!(Step::CreateBookmark.down(&mut manager), Ok(()));
    assert_eq!(Migrator::down(&mut manager), Err(DbError::Migration(Entity::Bookmark)));
    assert_eq!(manager.applied(), 5);
    assert_eq!(manager.tables(), &all_tables()[..4].to_vec());
}

#[test]
fn creating_a_table_again() {
    let mut manager = SchemaManager::new();
    let user = m20250712_104206_create_user::Migration;
    assert_eq!(user.up(&mut manager), Ok(()));
    assert_eq!(user.up(&mut manager), Ok(()));
    assert_eq!(manager.tables(), &vec![info(Entity::User, None)]);
    let strict = TableCreateStatement { if_not_exists: false, ..user.statement() };
    assert_eq!(manager.create_table(strict), Err(DbError::Migration(Entity::User)));
    assert_eq!(user.down(&mut manager), Ok(()));
    assert_eq!(user.down(&mut manager), Err(DbError::Migration(Entity::User)));
    assert_eq!(
        manager.drop_table(TableDropStatement { table: Entity::Group }),
        Err(DbError::Migration(Entity::Group))
    );
    let strict = TableCreateStatement { if_not_exists: false, ..user.statement() };
    assert_eq!(manager.create_table(strict), Ok(()));
}

fn plain(column: Column, column_type: ColumnType) -> ColumnDef {
    ColumnDef { column, column_type, null: false, primary_key: false, auto_increment: false }
}

fn key() -> ColumnDef {
    ColumnDef { primary_key: true, auto_increment: true, ..plain(Column::Id, ColumnType::Integer) }
}

fn nullable(column: Column, column_type: ColumnType) -> ColumnDef {
    ColumnDef { null: true, ..plain(column, column_type) }
}

fn cascade(from_table: Entity, from_column: Column, to_table: Entity) -> Option<ForeignKey> {
    Some(ForeignKey {
        from_table,
        from_column,
        to_table,
        to_column: Column::Id,
        on_delete: ForeignKeyAction::Cascade,
        on_update: ForeignKeyAction::Cascade,
    })
}

#[test]
fn the_user_table() {
    assert_eq!(
        m20250712_104206_create_user::Migration.statement(),
        TableCreateStatement {
            table: Entity::User,
            if_not_exists: true,
            columns: vec![
                key(),
                plain(Column::Name, ColumnType::String),
                plain(Column::Email, ColumnType::String),
                plain(Column::CreatedAt, ColumnType::Timestamp),
                plain(Column::UpdatedAt, ColumnType::Timestamp),
            ],
            foreign_key: None,
        }
    );
}

#[test]
fn the_organization_table() {
    assert_eq!(
        m20250711_115943_create_organization::Migration.statement(),
        TableCreateStatement {
            table: Entity::Organization,
            if_not_exists: true,
            columns: vec![
                key(),
                plain(Column::Name, ColumnType::String),
                plain(Column::UserId, ColumnType::Integer),
                plain(Column::CreatedAt, ColumnType::Timestamp),
                plain(Column::UpdatedAt, ColumnType::Timestamp),
                nullable(Column::DeletedAt, ColumnType::Timestamp),
            ],
            foreign_key: cascade(Entity::Organization, Column::UserId, Entity::User),
        }
    );
}

#[test]
fn the_workspace_table() {
    assert_eq!(
        m20250711_115948_create_workspace::Migration.statement(),
        TableCreateStatement {
            table: Entity::Workspace,
            if_not_exists: true,
            columns: vec![
                key(),
                plain(Column::Name, ColumnType::String),
                plain(Column::OrganizationId, ColumnType::Integer),
                plain(Column::CreatedAt, ColumnType::Timestamp),
                plain(Column::UpdatedAt, ColumnType::Timestamp),
                nullable(Column::DeletedAt, ColumnType::Timestamp),
            ],
            foreign_key: cascade(Entity::Workspace, Column::OrganizationId, Entity::Organization),
        }
    );
}

#[test]
fn the_groups_table() {
    assert_eq!(
        m20250711_115936_create_groups::Migration.statement(),
        TableCreateStatement {
            table: Entity::Group,
            if_not_exists: true,
            columns: vec![
                key(),
                plain(Column::Name, ColumnType::String),
                plain(Column::WorkspaceId, ColumnType::Integer),
                plain(Column::CreatedAt, ColumnType::Timestamp),
                plain(Column::UpdatedAt, ColumnType::Timestamp),
            ],
            foreign_key: cascade(Entity::Group, Column::WorkspaceId, Entity::Workspace),
        }
    );
}

#[test]
fn the_bookmark_table() {
    assert_eq!(
        m20250711_115931_create_bookmark::Migration.statement(),
        TableCreateStatement {
            table: Entity::Bookmark,
            if_not_exists: true,
            columns: vec![
                key(),
                plain(Column::Name, ColumnType::String),
                plain(Column::Url, ColumnType::String),
                plain(Column::Tags, ColumnType::String),
                plain(Column::IsFavorite, ColumnType::Boolean),
                nullable(Column::GroupId, ColumnType::Integer),
                plain(Column::CreatedAt, ColumnType::Timestamp),
                plain(Column::UpdatedAt, ColumnType::Timestamp),
                nullable(Column::DeletedAt, ColumnType::Timestamp),
            ],
            foreign_key: cascade(Entity::Bookmark, Column::GroupId, Entity::Group),
        }
    );
}

#[test]
fn column_definitions() {
    assert_eq!(pk_auto(Column::Id), key());
    assert_eq!(string(Column::Name), plain(Column::Name, ColumnType::String));
    assert_eq!(integer(Column::UserId), plain(Column::UserId, ColumnType::Integer));
    assert_eq!(boolean(Column::IsFavorite), plain(Column::IsFavorite, ColumnType::Boolean));
    assert_eq!(timestamp(Column::CreatedAt), plain(Column::CreatedAt, ColumnType::Timestamp));
    assert_eq!(timestamp(Column::DeletedAt).null(), nullable(Column::DeletedAt, ColumnType::Timestamp));
    assert_eq!(
        ForeignKey::cascade(Entity::Group, Column::WorkspaceId, Entity::Workspace),
        cascade(Entity::Group, Column::WorkspaceId, Entity::Workspace).unwrap()
    );
}

#[test]
fn names_in_the_database() {
    let tables: Vec<&str> =
        [Entity::User, Entity::Organization, Entity::Workspace, Entity::Group, Entity::Bookmark]
            .iter()
            .map(|e| e.table_name())
            .collect();
    assert_eq!(tables, vec!["user", "organization", "workspace", "groups", "bookmark"]);
    let columns: Vec<&str> = [
        Column::Id,
        Column::Name,
        Column::Email,
        Column::Url,
        Column::Tags,
        Column::IsFavorite,
        Column::UserId,
        Column::OrganizationId,
        Column::WorkspaceId,
        Column::GroupId,
        Column::CreatedAt,
        Column::UpdatedAt,
        Column::DeletedAt,
    ]
    .iter()
    .map(|c| c.name())
    .collect();
    assert_eq!(
        columns,
        vec![
            "id",
            "name",
            "email",
            "url",
            "tags",
            "is_favorite",
            "user_id",
            "organization_id",
            "workspace_id",
            "group_id",
            "created_at",
            "updated_at",
            "deleted_at"
        ]
    );
    let keys: Vec<&str> = [Entity::Organization, Entity::Workspace, Entity::Group, Entity::Bookmark]
        .iter()
        .map(|e| ForeignKey::cascade(*e, Column::Id, Entity::User).name())
        .collect();
    assert_eq!(
        keys,
        vec!["fk_organization_user", "fk_workspace_organization", "fk_groups_workspace", "fk-bookmark_group"]
    );
    let steps: Vec<&str> = Migrator::migrations().iter().map(|s| s.name()).collect();
    assert_eq!(
        steps,
        vec![
            "m20250712_104206_create_user",
            "m20250711_115943_create_organization",
            "m20250711_115948_create_workspace",
            "m20250711_115936_create_groups",
            "m20250711_115931_create_bookmark",
        ]
    );
}

#[test]
fn the_store_opens_over_a_migrated_database() {
    let mut manager = SchemaManager::new();
    let db: Database = establish_connection(&mut manager).unwrap();
    assert_eq!(manager.applied(), 5);
    assert_eq!(manager.tables(), &all_tables());
    assert_eq!(db.all_users(), vec![]);
    assert_eq!(db.all_bookmarks(), vec![]);
    assert!(establish_connection(&mut manager).is_ok());
}

#[test]
fn the_sizes_of_the_pool() {
    let options = PoolOptions::standard();
    assert_eq!(options, PoolOptions { max_connections: 100, min_connections: 5, idle_timeout_secs: 8 });
    assert!(options.is_valid());
    assert!(PoolOptions { max_connections: 1, min_connections: 1, idle_timeout_secs: 0 }.is_valid());
    assert!(PoolOptions { max_connections: 1, min_connections: 0, idle_timeout_secs: 0 }.is_valid());
    assert!(!PoolOptions { max_connections: 0, min_connections: 0, idle_timeout_secs: 8 }.is_valid());
    assert!(!PoolOptions { max_connections: 4, min_connections: 5, idle_timeout_secs: 8 }.is_valid());
}

#[test]
fn each_migration_can_be_undone_right_after_it_ran() {
    let mut manager = SchemaManager::new();
    for step in Migrator::migrations() {
        let before = manager.tables().clone();
        assert_eq!(step.up(&mut manager), Ok(()));
        assert_eq!(manager.tables().len(), before.len() + 1);
        assert_eq!(step.down(&mut manager), Ok(()));
        assert_eq!(manager.tables(), &before);
        assert_eq!(step.up(&mut manager), Ok(()));
    }
    assert_eq!(manager.tables(), &all_tables());
}
