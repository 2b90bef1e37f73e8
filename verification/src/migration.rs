//! The schema: the five tables, each with one migration that creates it and
//! drops it again, and the order in which the migrations run.
//!
//! A table can be created only after the table that it refers to, so the order
//! is user, organization, workspace, groups, bookmark.

use vstd::prelude::*;

use crate::entity::Entity;
use crate::error::DbError;

pub mod m20250711_115931_create_bookmark;
pub mod m20250711_115936_create_groups;
pub mod m20250711_115943_create_organization;
pub mod m20250711_115948_create_workspace;
pub mod m20250712_104206_create_user;

verus! {

/// The columns of the five tables.
#[derive(Clone, Copy, Debug, PartialEq, Eq, Structural)]
pub enum Column {
    Id,
    Name,
    Email,
    Url,
    Tags,
    IsFavorite,
    UserId,
    OrganizationId,
    WorkspaceId,
    GroupId,
    CreatedAt,
    UpdatedAt,
    DeletedAt,
}

impl Column {
    pub open spec fn name_text(self) -> Seq<char> {
        match self {
            Column::Id => "id"@,
            Column::Name => "name"@,
            Column::Email => "email"@,
            Column::Url => "url"@,
            Column::Tags => "tags"@,
            Column::IsFavorite => "is_favorite"@,
            Column::UserId => "user_id"@,
            Column::OrganizationId => "organization_id"@,
            Column::WorkspaceId => "workspace_id"@,
            Column::GroupId => "group_id"@,
            Column::CreatedAt => "created_at"@,
            Column::UpdatedAt => "updated_at"@,
            Column::DeletedAt => "deleted_at"@,
        }
    }

    /// The column's name in the database.
    pub fn name(self) -> (r: &'static str)
        ensures
            r@ == self.name_text(),
    {
        match self {
            Column::Id => "id",
            Column::Name => "name",
            Column::Email => "email",
            Column::Url => "url",
            Column::Tags => "tags",
            Column::IsFavorite => "is_favorite",
            Column::UserId => "user_id",
            Column::OrganizationId => "organization_id",
            Column::WorkspaceId => "workspace_id",
            Column::GroupId => "group_id",
            Column::CreatedAt => "created_at",
            Column::UpdatedAt => "updated_at",
            Column::DeletedAt => "deleted_at",
        }
    }
}

impl Entity {
    pub open spec fn table_text(self) -> Seq<char> {
        match self {
            Entity::User => "user"@,
            Entity::Organization => "organization"@,
            Entity::Workspace => "workspace"@,
            Entity::Group => "groups"@,
            Entity::Bookmark => "bookmark"@,
        }
    }

    /// The name of the table that holds this kind of row.
    pub fn table_name(self) -> (r: &'static str)
        ensures
            r@ == self.table_text(),
    {
        match self {
            Entity::User => "user",
            Entity::Organization => "organization",
            Entity::Workspace => "workspace",
            Entity::Group => "groups",
            Entity::Bookmark => "bookmark",
        }
    }

    /// The kind of row that this kind belongs to.
    pub open spec fn parent(self) -> Option<Entity> {
        match self {
            Entity::User => None,
            Entity::Organization => Some(Entity::User),
            Entity::Workspace => Some(Entity::Organization),
            Entity::Group => Some(Entity::Workspace),
            Entity::Bookmark => Some(Entity::Group),
        }
    }
}

/// What a column holds.
#[derive(Clone, Copy, Debug, PartialEq, Eq, Structural)]
pub enum ColumnType {
    Integer,
    String,
    Boolean,
    Timestamp,
}

/// The definition of one column.
#[derive(Clone, Copy, Debug, PartialEq, Eq, Structural)]
pub struct ColumnDef {
    pub column: Column,
    pub column_type: ColumnType,
    pub null: bool,
    pub primary_key: bool,
    pub auto_increment: bool,
}

impl ColumnDef {
    /// The same column, but it may be null.
    pub fn null(self) -> (r: ColumnDef)
        ensures
            r == (ColumnDef { null: true, ..self }),
    {
        ColumnDef { null: true, ..self }
    }
}

/// A column that may not be null and is no key.
pub open spec fn plain(column: Column, column_type: ColumnType) -> ColumnDef {
    ColumnDef { column, column_type, null: false, primary_key: false, auto_increment: false }
}

/// The primary key: an integer that the database counts up.
pub fn pk_auto(column: Column) -> (r: ColumnDef)
    ensures
        r == (ColumnDef {
            primary_key: true,
            auto_increment: true,
            ..plain(column, ColumnType::Integer)
        }),
{
    ColumnDef {
        column,
        column_type: ColumnType::Integer,
        null: false,
        primary_key: true,
        auto_increment: true,
    }
}

pub fn string(column: Column) -> (r: ColumnDef)
    ensures
        r == plain(column, ColumnType::String),
{
    ColumnDef {
        column,
        column_type: ColumnType::String,
        null: false,
        primary_key: false,
        auto_increment: false,
    }
}

pub fn integer(column: Column) -> (r: ColumnDef)
    ensures
        r == plain(column, ColumnType::Integer),
{
    ColumnDef {
        column,
        column_type: ColumnType::Integer,
        null: false,
        primary_key: false,
        auto_increment: false,
    }
}

pub fn boolean(column: Column) -> (r: ColumnDef)
    ensures
        r == plain(column, ColumnType::Boolean),
{
    ColumnDef {
        column,
        column_type: ColumnType::Boolean,
        null: false,
        primary_key: false,
        auto_increment: false,
    }
}

pub fn timestamp(column: Column) -> (r: ColumnDef)
    ensures
        r == plain(column, ColumnType::Timestamp),
{
    ColumnDef {
        column,
        column_type: ColumnType::Timestamp,
        null: false,
        primary_key: false,
        auto_increment: false,
    }
}

/// What happens to the rows that refer to a row that is deleted or whose key
/// changes.
#[derive(Clone, Copy, Debug, PartialEq, Eq, Structural)]
pub enum ForeignKeyAction {
    Restrict,
    Cascade,
    SetNull,
    NoAction,
    SetDefault,
}

/// A foreign key from a column of one table to the key of another.
#[derive(Clone, Copy, Debug, PartialEq, Eq, Structural)]
pub struct ForeignKey {
    pub from_table: Entity,
    pub from_column: Column,
    pub to_table: Entity,
    pub to_column: Column,
    pub on_delete: ForeignKeyAction,
    pub on_update: ForeignKeyAction,
}

impl ForeignKey {
    /// The foreign key by which a row hangs on its parent: deleting the parent
    /// deletes the row, and a change of the parent's key is carried over.
    pub open spec fn cascading(
        from_table: Entity,
        from_column: Column,
        to_table: Entity,
    ) -> ForeignKey {
        ForeignKey {
            from_table,
            from_column,
            to_table,
            to_column: Column::Id,
            on_delete: ForeignKeyAction::Cascade,
            on_update: ForeignKeyAction::Cascade,
        }
    }

    pub fn cascade(from_table: Entity, from_column: Column, to_table: Entity) -> (r: ForeignKey)
        ensures
            r == ForeignKey::cascading(from_table, from_column, to_table),
    {
        ForeignKey {
            from_table,
            from_column,
            to_table,
            to_column: Column::Id,
            on_delete: ForeignKeyAction::Cascade,
            on_update: ForeignKeyAction::Cascade,
        }
    }

    pub open spec fn name_text(self) -> Seq<char> {
        match self.from_table {
            Entity::User => "fk_user"@,
            Entity::Organization => "fk_organization_user"@,
            Entity::Workspace => "fk_workspace_organization"@,
            Entity::Group => "fk_groups_workspace"@,
            Entity::Bookmark => "fk-bookmark_group"@,
        }
    }

    /// The name of the constraint in the database.
    pub fn name(&self) -> (r: &'static str)
        ensures
            r@ == self.name_text(),
    {
        match self.from_table {
            Entity::User => "fk_user",
            Entity::Organization => "fk_organization_user",
            Entity::Workspace => "fk_workspace_organization",
            Entity::Group => "fk_groups_workspace",
            Entity::Bookmark => "fk-bookmark_group",
        }
    }
}

/// The statement that creates a table.
#[derive(Debug, PartialEq, Eq)]
pub struct TableCreateStatement {
    pub table: Entity,
    pub if_not_exists: bool,
    pub columns: Vec<ColumnDef>,
    pub foreign_key: Option<ForeignKey>,
}

/// A statement that creates a table, with its columns as a sequence.
pub struct TableCreateView {
    pub table: Entity,
    pub if_not_exists: bool,
    pub columns: Seq<ColumnDef>,
    pub foreign_key: Option<ForeignKey>,
}

impl View for TableCreateStatement {
    type V = TableCreateView;

    open spec fn view(&self) -> TableCreateView {
        TableCreateView {
            table: self.table,
            if_not_exists: self.if_not_exists,
            columns: self.columns@,
            foreign_key: self.foreign_key,
        }
    }
}

/// The statement that drops a table.
#[derive(Clone, Copy, Debug, PartialEq, Eq, Structural)]
pub struct TableDropStatement {
    pub table: Entity,
}

/// What the catalog knows of a table: which it is, and which it refers to.
#[derive(Clone, Copy, Debug, PartialEq, Eq, Structural)]
pub struct TableInfo {
    pub table: Entity,
    pub references: Option<Entity>,
}

/// The tables that exist and how many migrations have run.
pub struct Schema {
    pub tables: Seq<TableInfo>,
    pub applied: nat,
}

/// The catalog holds the table `table`.
pub open spec fn has_table(tables: Seq<TableInfo>, table: Entity) -> bool {
    exists|i: int| 0 <= i < tables.len() && (#[trigger] tables[i]).table == table
}

/// Some table of the catalog refers to `table`.
pub open spec fn is_referenced(tables: Seq<TableInfo>, table: Entity) -> bool {
    exists|i: int| 0 <= i < tables.len() && (#[trigger] tables[i]).references == Some(table)
}

pub open spec fn is_not(table: Entity) -> spec_fn(TableInfo) -> bool {
    |info: TableInfo| info.table != table
}

/// What a statement refers to.
pub open spec fn target(foreign_key: Option<ForeignKey>) -> Option<Entity> {
    match foreign_key {
        Some(key) => Some(key.to_table),
        None => None,
    }
}

impl Schema {
    /// The schema of a database in which nothing has run.
    pub open spec fn empty() -> Schema {
        Schema { tables: Seq::empty(), applied: 0 }
    }

    /// Every table that a table of the catalog refers to is in the catalog.
    pub open spec fn wf(self) -> bool {
        forall|i: int|
            0 <= i < self.tables.len() ==> ((#[trigger] self.tables[i]).references matches Some(
                parent,
            ) ==> has_table(self.tables, parent))
    }

    /// The schema after the table was created, or why it cannot be. A table
    /// that exists is created again only where the statement allows for it,
    /// and then nothing changes; a table that refers to a table that does not
    /// exist cannot be created.
    pub open spec fn create_table(self, statement: TableCreateView) -> Result<Schema, DbError> {
        if has_table(self.tables, statement.table) {
            if statement.if_not_exists {
                Ok(self)
            } else {
                Err(DbError::Migration(statement.table))
            }
        } else if target(statement.foreign_key) matches Some(parent) && !has_table(
            self.tables,
            parent,
        ) {
            Err(DbError::Migration(statement.table))
        } else {
            Ok(
                Schema {
                    tables: self.tables.push(
                        TableInfo {
                            table: statement.table,
                            references: target(statement.foreign_key),
                        },
                    ),
                    ..self
                },
            )
        }
    }

    /// The schema after the table was dropped, or why it cannot be: it does
    /// not exist, or another table refers to it.
    pub open spec fn drop_table(self, statement: TableDropStatement) -> Result<Schema, DbError> {
        if !has_table(self.tables, statement.table) || is_referenced(
            self.tables,
            statement.table,
        ) {
            Err(DbError::Migration(statement.table))
        } else {
            Ok(Schema { tables: self.tables.filter(is_not(statement.table)), ..self })
        }
    }
}

/// Creating a table leaves no table without the table that it refers to.
pub proof fn lemma_create_table_wf(schema: Schema, statement: TableCreateView)
    requires
        schema.wf(),
    ensures
        schema.create_table(statement) matches Ok(created) ==> created.wf(),
{
    if let Ok(created) = schema.create_table(statement) {
        if created != schema {
            let n = schema.tables.len() as int;
            assert(created.tables[n].table == statement.table);
            assert forall|i: int| 0 <= i < created.tables.len() implies ((
            #[trigger] created.tables[i]).references matches Some(parent) ==> has_table(
                created.tables,
                parent,
            )) by {
                if let Some(parent) = created.tables[i].references {
                    if i < n {
                        assert(created.tables[i] == schema.tables[i]);
                    }
                    assert(has_table(schema.tables, parent));
                    let k = choose|k: int|
                        0 <= k < schema.tables.len() && (#[trigger] schema.tables[k]).table
                            == parent;
                    assert(created.tables[k].table == parent);
                }
            }
        }
    }
}

/// Dropping a table leaves no table without the table that it refers to: a
/// table that another refers to is not dropped.
pub proof fn lemma_drop_table_wf(schema: Schema, statement: TableDropStatement)
    requires
        schema.wf(),
    ensures
        schema.drop_table(statement) matches Ok(dropped) ==> dropped.wf(),
{
    if let Ok(dropped) = schema.drop_table(statement) {
        let keep = is_not(statement.table);
        crate::table::lemma_filter_contains(schema.tables, keep);
        assert forall|i: int| 0 <= i < dropped.tables.len() implies ((
        #[trigger] dropped.tables[i]).references matches Some(parent) ==> has_table(
            dropped.tables,
            parent,
        )) by {
            let info = dropped.tables[i];
            if let Some(parent) = info.references {
                assert(dropped.tables.contains(info));
                let at = choose|at: int| 0 <= at < schema.tables.len() && schema.tables[at] == info;
                assert(schema.tables[at].references == Some(parent));
                assert(has_table(schema.tables, parent));
                let k = choose|k: int|
                    0 <= k < schema.tables.len() && (#[trigger] schema.tables[k]).table == parent;
                assert(parent != statement.table);
                assert(schema.tables.contains(schema.tables[k]));
                assert(dropped.tables.contains(schema.tables[k]));
                let j = choose|j: int|
                    0 <= j < dropped.tables.len() && dropped.tables[j] == schema.tables[k];
                assert(dropped.tables[j].table == parent);
            }
        }
    }
}

/// A migration is reversible: where creating a table that was not there
/// succeeds, dropping it again succeeds and leaves the catalog as it was.
pub proof fn lemma_reversible(schema: Schema, statement: TableCreateView)
    requires
        schema.wf(),
    ensures
        !has_table(schema.tables, statement.table) ==> (schema.create_table(
            statement,
        ) matches Ok(created) ==> created.drop_table(TableDropStatement { table: statement.table })
            == Ok::<Schema, DbError>(schema)),
{
    if !has_table(schema.tables, statement.table) {
        if let Ok(created) = schema.create_table(statement) {
            let table = statement.table;
            let n = schema.tables.len() as int;
            assert(created.tables[n].table == table);
            assert(!is_referenced(created.tables, table)) by {
                if is_referenced(created.tables, table) {
                    let i = choose|i: int|
                        0 <= i < created.tables.len() && (#[trigger] created.tables[i]).references
                            == Some(table);
                    if i < n {
                        assert(created.tables[i] == schema.tables[i]);
                        assert(has_table(schema.tables, table));
                    }
                }
            }
            let keep = is_not(table);
            assert(created.tables.drop_last() == schema.tables);
            assert(created.tables.filter(keep) == schema.tables.filter(keep)) by {
                reveal(Seq::filter);
            }
            assert forall|i: int| 0 <= i < schema.tables.len() implies keep(
                #[trigger] schema.tables[i],
            ) by {}
            crate::table::lemma_filter_all(schema.tables, keep);
        }
    }
}

/// The catalog of a database: where the migrations run. No table of it refers
/// to a table that is not in it.
pub struct SchemaManager {
    tables: Vec<TableInfo>,
    applied: usize,
}

impl View for SchemaManager {
    type V = Schema;

    closed spec fn view(&self) -> Schema {
        Schema { tables: self.tables@, applied: self.applied as nat }
    }
}

impl SchemaManager {
    #[verifier::type_invariant]
    pub open spec fn well_formed(self) -> bool {
        self@.wf()
    }

    /// The catalog of an empty database.
    pub fn new() -> (r: SchemaManager)
        ensures
            r@ == Schema::empty(),
    {
        SchemaManager { tables: Vec::new(), applied: 0 }
    }

    pub fn has_table(&self, table: Entity) -> (r: bool)
        ensures
            r == has_table(self@.tables, table),
    {
        let mut i: usize = 0;
        while i < self.tables.len()
            invariant
                i <= self.tables@.len(),
                forall|j: int| 0 <= j < i ==> (#[trigger] self.tables@[j]).table != table,
            decreases self.tables@.len() - i,
        {
            if self.tables[i].table == table {
                return true;
            }
            i += 1;
        }
        false
    }

    fn is_referenced(&self, table: Entity) -> (r: bool)
        ensures
            r == is_referenced(self@.tables, table),
    {
        let mut i: usize = 0;
        while i < self.tables.len()
            invariant
                i <= self.tables@.len(),
                forall|j: int|
                    0 <= j < i ==> (#[trigger] self.tables@[j]).references != Some(table),
            decreases self.tables@.len() - i,
        {
            match self.tables[i].references {
                Some(parent) => {
                    if parent == table {
                        return true;
                    }
                },
                None => {},
            }
            i += 1;
        }
        false
    }

    /// How many migrations have run.
    pub fn applied(&self) -> (r: usize)
        ensures
            r == self@.applied,
    {
        self.applied
    }

    /// The tables that exist, in the order in which they were created.
    pub fn tables(&self) -> (r: &Vec<TableInfo>)
        ensures
            r@ == self@.tables,
    {
        &self.tables
    }

    /// Creates a table.
    pub fn create_table(&mut self, statement: TableCreateStatement) -> (r: Result<(), DbError>)
        ensures
            match old(self)@.create_table(statement@) {
                Ok(schema) => r is Ok && final(self)@ == schema,
                Err(e) => r == Err::<(), DbError>(e) && final(self)@ == old(self)@,
            },
    {
        proof {
            use_type_invariant(&*self);
            lemma_create_table_wf(old(self)@, statement@);
        }
        if self.has_table(statement.table) {
            if statement.if_not_exists {
                return Ok(());
            }
            return Err(DbError::Migration(statement.table));
        }
        let references = match statement.foreign_key {
            Some(key) => {
                if !self.has_table(key.to_table) {
                    return Err(DbError::Migration(statement.table));
                }
                Some(key.to_table)
            },
            None => None,
        };
        let mut taken = SchemaManager::new();
        std::mem::swap(self, &mut taken);
        let SchemaManager { mut tables, applied } = taken;
        tables.push(TableInfo { table: statement.table, references });
        *self = SchemaManager { tables, applied };
        Ok(())
    }

    /// Drops a table.
    pub fn drop_table(&mut self, statement: TableDropStatement) -> (r: Result<(), DbError>)
        ensures
            match old(self)@.drop_table(statement) {
                Ok(schema) => r is Ok && final(self)@ == schema,
                Err(e) => r == Err::<(), DbError>(e) && final(self)@ == old(self)@,
            },
    {
        proof {
            use_type_invariant(&*self);
            lemma_drop_table_wf(old(self)@, statement);
        }
        if !self.has_table(statement.table) || self.is_referenced(statement.table) {
            return Err(DbError::Migration(statement.table));
        }
        let ghost before = self.tables@;
        let ghost keep = is_not(statement.table);
        let mut left: Vec<TableInfo> = Vec::new();
        let mut i: usize = 0;
        assert(before.take(0).filter(keep) == Seq::<TableInfo>::empty()) by {
            reveal(Seq::filter);
        }
        while i < self.tables.len()
            invariant
                i <= self.tables@.len(),
                self.tables@ == before,
                keep == is_not(statement.table),
                left@ == before.take(i as int).filter(keep),
            decreases self.tables@.len() - i,
        {
            proof {
                crate::table::lemma_filter_step(before, keep, i as int);
            }
            if self.tables[i].table != statement.table {
                left.push(self.tables[i]);
            }
            i += 1;
        }
        assert(before.take(before.len() as int) == before);
        self.tables = left;
        Ok(())
    }
}

/// One of the five migrations.
#[derive(Clone, Copy, Debug, PartialEq, Eq, Structural)]
pub enum Step {
    CreateUser,
    CreateOrganization,
    CreateWorkspace,
    CreateGroups,
    CreateBookmark,
}

impl Step {
    /// The table that the migration creates and drops.
    pub open spec fn table(self) -> Entity {
        match self {
            Step::CreateUser => Entity::User,
            Step::CreateOrganization => Entity::Organization,
            Step::CreateWorkspace => Entity::Workspace,
            Step::CreateGroups => Entity::Group,
            Step::CreateBookmark => Entity::Bookmark,
        }
    }

    /// The statement by which the migration creates its table.
    pub open spec fn creates(self) -> TableCreateView {
        match self {
            Step::CreateUser => m20250712_104206_create_user::table(),
            Step::CreateOrganization => m20250711_115943_create_organization::table(),
            Step::CreateWorkspace => m20250711_115948_create_workspace::table(),
            Step::CreateGroups => m20250711_115936_create_groups::table(),
            Step::CreateBookmark => m20250711_115931_create_bookmark::table(),
        }
    }

    pub open spec fn name_text(self) -> Seq<char> {
        match self {
            Step::CreateUser => "m20250712_104206_create_user"@,
            Step::CreateOrganization => "m20250711_115943_create_organization"@,
            Step::CreateWorkspace => "m20250711_115948_create_workspace"@,
            Step::CreateGroups => "m20250711_115936_create_groups"@,
            Step::CreateBookmark => "m20250711_115931_create_bookmark"@,
        }
    }

    /// The name under which the migration is recorded.
    pub fn name(self) -> (r: &'static str)
        ensures
            r@ == self.name_text(),
    {
        match self {
            Step::CreateUser => "m20250712_104206_create_user",
            Step::CreateOrganization => "m20250711_115943_create_organization",
            Step::CreateWorkspace => "m20250711_115948_create_workspace",
            Step::CreateGroups => "m20250711_115936_create_groups",
            Step::CreateBookmark => "m20250711_115931_create_bookmark",
        }
    }

    /// The statement by which the migration creates its table.
    pub fn statement(self) -> (r: TableCreateStatement)
        ensures
            r@ == self.creates(),
    {
        match self {
            Step::CreateUser => m20250712_104206_create_user::Migration.statement(),
            Step::CreateOrganization => m20250711_115943_create_organization::Migration.statement(),
            Step::CreateWorkspace => m20250711_115948_create_workspace::Migration.statement(),
            Step::CreateGroups => m20250711_115936_create_groups::Migration.statement(),
            Step::CreateBookmark => m20250711_115931_create_bookmark::Migration.statement(),
        }
    }

    /// The table that the migration creates and drops.
    pub fn creates_table(self) -> (r: Entity)
        ensures
            r == self.table(),
    {
        match self {
            Step::CreateUser => Entity::User,
            Step::CreateOrganization => Entity::Organization,
            Step::CreateWorkspace => Entity::Workspace,
            Step::CreateGroups => Entity::Group,
            Step::CreateBookmark => Entity::Bookmark,
        }
    }

    /// Creates the table of the migration.
    pub fn up(self, manager: &mut SchemaManager) -> (r: Result<(), DbError>)
        ensures
            match old(manager)@.create_table(self.creates()) {
                Ok(schema) => r is Ok && final(manager)@ == schema,
                Err(e) => r == Err::<(), DbError>(e) && final(manager)@ == old(manager)@,
            },
    {
        match self {
            Step::CreateUser => m20250712_104206_create_user::Migration.up(manager),
            Step::CreateOrganization => m20250711_115943_create_organization::Migration.up(manager),
            Step::CreateWorkspace => m20250711_115948_create_workspace::Migration.up(manager),
            Step::CreateGroups => m20250711_115936_create_groups::Migration.up(manager),
            Step::CreateBookmark => m20250711_115931_create_bookmark::Migration.up(manager),
        }
    }

    /// Drops the table of the migration.
    pub fn down(self, manager: &mut SchemaManager) -> (r: Result<(), DbError>)
        ensures
            match old(manager)@.drop_table(TableDropStatement { table: self.table() }) {
                Ok(schema) => r is Ok && final(manager)@ == schema,
                Err(e) => r == Err::<(), DbError>(e) && final(manager)@ == old(manager)@,
            },
    {
        match self {
            Step::CreateUser => m20250712_104206_create_user::Migration.down(manager),
            Step::CreateOrganization => m20250711_115943_create_organization::Migration.down(
                manager,
            ),
            Step::CreateWorkspace => m20250711_115948_create_workspace::Migration.down(manager),
            Step::CreateGroups => m20250711_115936_create_groups::Migration.down(manager),
            Step::CreateBookmark => m20250711_115931_create_bookmark::Migration.down(manager),
        }
    }
}

/// The migrations in the order in which they run: every table after the
/// table that it refers to.
pub open spec fn registered() -> Seq<Step> {
    seq![
        Step::CreateUser,
        Step::CreateOrganization,
        Step::CreateWorkspace,
        Step::CreateGroups,
        Step::CreateBookmark,
    ]
}

/// The schema after the migrations that have not run yet have run, in their
/// order and up to the first that fails, and the error of that one.
pub open spec fn migrated(schema: Schema, steps: Seq<Step>) -> (Schema, Option<DbError>)
    decreases steps.len() - schema.applied,
{
    if schema.applied >= steps.len() {
        (schema, None)
    } else {
        match schema.create_table(steps[schema.applied as int].creates()) {
            Ok(next) => migrated(Schema { applied: schema.applied + 1, ..next }, steps),
            Err(e) => (schema, Some(e)),
        }
    }
}

/// The schema after the migrations that have run were undone, the last first
/// and up to the first that fails, and the error of that one.
pub open spec fn reverted(schema: Schema, steps: Seq<Step>) -> (Schema, Option<DbError>)
    decreases schema.applied,
{
    if schema.applied == 0 || schema.applied > steps.len() {
        (schema, None)
    } else {
        match schema.drop_table(
            TableDropStatement { table: steps[schema.applied - 1].table() },
        ) {
            Ok(next) => reverted(Schema { applied: (schema.applied - 1) as nat, ..next }, steps),
            Err(e) => (schema, Some(e)),
        }
    }
}

/// Runs the migrations and keeps count of them.
pub struct Migrator;

impl Migrator {
    /// The migrations in the order in which they run.
    pub fn migrations() -> (r: Vec<Step>)
        ensures
            r@ == registered(),
    {
        let mut steps: Vec<Step> = Vec::new();
        steps.push(Step::CreateUser);
        steps.push(Step::CreateOrganization);
        steps.push(Step::CreateWorkspace);
        steps.push(Step::CreateGroups);
        steps.push(Step::CreateBookmark);
        assert(steps@ =~= registered());
        steps
    }

    /// Runs every migration that has not run yet. Each runs once: a second
    /// call finds nothing to do.
    pub fn up(manager: &mut SchemaManager) -> (r: Result<(), DbError>)
        ensures
            final(manager)@ == migrated(old(manager)@, registered()).0,
            r == match migrated(old(manager)@, registered()).1 {
                None => Ok::<(), DbError>(()),
                Some(e) => Err(e),
            },
    {
        let steps = Migrator::migrations();
        while manager.applied < steps.len()
            invariant
                steps@ == registered(),
                migrated(manager@, steps@) == migrated(old(manager)@, steps@),
            decreases steps@.len() - manager.applied,
        {
            let step = steps[manager.applied];
            match step.up(manager) {
                Ok(()) => {
                    proof {
                        use_type_invariant(&*manager);
                    }
                    manager.applied = manager.applied + 1;
                },
                Err(e) => {
                    return Err(e);
                },
            }
        }
        Ok(())
    }

    /// Undoes every migration that has run, the last first.
    pub fn down(manager: &mut SchemaManager) -> (r: Result<(), DbError>)
        ensures
            final(manager)@ == reverted(old(manager)@, registered()).0,
            r == match reverted(old(manager)@, registered()).1 {
                None => Ok::<(), DbError>(()),
                Some(e) => Err(e),
            },
    {
        let steps = Migrator::migrations();
        while manager.applied > 0 && manager.applied <= steps.len()
            invariant
                steps@ == registered(),
                reverted(manager@, steps@) == reverted(old(manager)@, steps@),
            decreases manager.applied,
        {
            let step = steps[manager.applied - 1];
            match step.down(manager) {
                Ok(()) => {
                    proof {
                        use_type_invariant(&*manager);
                    }
                    manager.applied = manager.applied - 1;
                },
                Err(e) => {
                    return Err(e);
                },
            }
        }
        Ok(())
    }
}

/// The five tables in the order of their creation.
pub open spec fn all_tables() -> Seq<TableInfo> {
    seq![
        TableInfo { table: Entity::User, references: None },
        TableInfo { table: Entity::Organization, references: Some(Entity::User) },
        TableInfo { table: Entity::Workspace, references: Some(Entity::Organization) },
        TableInfo { table: Entity::Group, references: Some(Entity::Workspace) },
        TableInfo { table: Entity::Bookmark, references: Some(Entity::Group) },
    ]
}

/// Every migration creates the table of its kind of row, with a foreign key to
/// the table of the parent that cascades deletes and changes of the key.
pub proof fn lemma_foreign_keys_cascade(i: int)
    requires
        0 <= i < registered().len(),
    ensures
        registered()[i].creates().table == registered()[i].table(),
        registered()[i].creates().foreign_key == match registered()[i].table().parent() {
            None => None::<ForeignKey>,
            Some(parent) => Some(
                ForeignKey {
                    from_table: registered()[i].table(),
                    from_column: registered()[i].creates().foreign_key->0.from_column,
                    to_table: parent,
                    to_column: Column::Id,
                    on_delete: ForeignKeyAction::Cascade,
                    on_update: ForeignKeyAction::Cascade,
                },
            ),
        },
        forall|j: int|
            0 <= j < i ==> registered()[j].table() != registered()[i].table(),
        registered()[i].table().parent() matches Some(parent) ==> exists|j: int|
            0 <= j < i && #[trigger] registered()[j].table() == parent,
{
    if i == 1 {
        assert(registered()[0].table() == Entity::User);
    } else if i == 2 {
        assert(registered()[1].table() == Entity::Organization);
    } else if i == 3 {
        assert(registered()[2].table() == Entity::Workspace);
    } else if i == 4 {
        assert(registered()[3].table() == Entity::Group);
    }
}

/// The table that was created last joins the catalog.
proof fn lemma_created(tables: Seq<TableInfo>, step: Step, applied: nat)
    requires
        !has_table(tables, step.table()),
        step.table().parent() matches Some(parent) ==> has_table(tables, parent),
    ensures
        (Schema { tables, applied }).create_table(step.creates()) == Ok::<Schema, DbError>(
            Schema {
                tables: tables.push(
                    TableInfo { table: step.table(), references: step.table().parent() },
                ),
                applied,
            },
        ),
{
}

/// In an empty database every migration runs, and the five tables exist
/// afterwards, each created after the table that it refers to.
pub proof fn lemma_migrates_from_nothing()
    ensures
        migrated(Schema::empty(), registered()) == (
            Schema { tables: all_tables(), applied: 5 },
            None::<DbError>,
        ),
{
    let steps = registered();
    let t0 = Seq::<TableInfo>::empty();
    let t1 = t0.push(TableInfo { table: Entity::User, references: None });
    let t2 = t1.push(TableInfo { table: Entity::Organization, references: Some(Entity::User) });
    let t3 = t2.push(
        TableInfo { table: Entity::Workspace, references: Some(Entity::Organization) },
    );
    let t4 = t3.push(TableInfo { table: Entity::Group, references: Some(Entity::Workspace) });
    let t5 = t4.push(TableInfo { table: Entity::Bookmark, references: Some(Entity::Group) });
    assert(t5 =~= all_tables());
    assert(t1[0].table == Entity::User);
    assert(t2[1].table == Entity::Organization);
    assert(t3[2].table == Entity::Workspace);
    assert(t4[3].table == Entity::Group);
    lemma_created(t0, steps[0], 0);
    lemma_created(t1, steps[1], 1);
    lemma_created(t2, steps[2], 2);
    lemma_created(t3, steps[3], 3);
    lemma_created(t4, steps[4], 4);
    let s5 = Schema { tables: t5, applied: 5 };
    let s4 = Schema { tables: t4, applied: 4 };
    let s3 = Schema { tables: t3, applied: 3 };
    let s2 = Schema { tables: t2, applied: 2 };
    let s1 = Schema { tables: t1, applied: 1 };
    let s0 = Schema { tables: t0, applied: 0 };
    assert(migrated(s5, steps) == (s5, None::<DbError>));
    assert(migrated(s4, steps) == migrated(s5, steps));
    assert(migrated(s3, steps) == migrated(s4, steps));
    assert(migrated(s2, steps) == migrated(s3, steps));
    assert(migrated(s1, steps) == migrated(s2, steps));
    assert(migrated(s0, steps) == migrated(s1, steps));
}

/// Undoing the migrations of a fully migrated database drops the five tables,
/// the last first, and leaves an empty database.
pub proof fn lemma_migrates_back()
    ensures
        reverted(Schema { tables: all_tables(), applied: 5 }, registered()) == (
            Schema::empty(),
            None::<DbError>,
        ),
{
    let steps = registered();
    let t0 = Seq::<TableInfo>::empty();
    let t1 = t0.push(TableInfo { table: Entity::User, references: None });
    let t2 = t1.push(TableInfo { table: Entity::Organization, references: Some(Entity::User) });
    let t3 = t2.push(
        TableInfo { table: Entity::Workspace, references: Some(Entity::Organization) },
    );
    let t4 = t3.push(TableInfo { table: Entity::Group, references: Some(Entity::Workspace) });
    let t5 = t4.push(TableInfo { table: Entity::Bookmark, references: Some(Entity::Group) });
    assert(t5 =~= all_tables());
    assert(t1[0].table == Entity::User);
    assert(t2[1].table == Entity::Organization);
    assert(t3[2].table == Entity::Workspace);
    assert(t4[3].table == Entity::Group);
    let s0 = Schema { tables: t0, applied: 1 };
    let s1 = Schema { tables: t1, applied: 2 };
    let s2 = Schema { tables: t2, applied: 3 };
    let s3 = Schema { tables: t3, applied: 4 };
    let s4 = Schema { tables: t4, applied: 5 };
    lemma_created(t0, steps[0], 1);
    lemma_created(t1, steps[1], 2);
    lemma_created(t2, steps[2], 3);
    lemma_created(t3, steps[3], 4);
    lemma_created(t4, steps[4], 5);
    assert(s0.wf());
    lemma_create_table_wf(s0, steps[0].creates());
    lemma_reversible(s0, steps[0].creates());
    assert((Schema { tables: t1, applied: 1 }).wf());
    assert(s1.wf());
    lemma_create_table_wf(s1, steps[1].creates());
    lemma_reversible(s1, steps[1].creates());
    assert((Schema { tables: t2, applied: 2 }).wf());
    assert(s2.wf());
    lemma_create_table_wf(s2, steps[2].creates());
    lemma_reversible(s2, steps[2].creates());
    assert((Schema { tables: t3, applied: 3 }).wf());
    assert(s3.wf());
    lemma_create_table_wf(s3, steps[3].creates());
    lemma_reversible(s3, steps[3].creates());
    assert((Schema { tables: t4, applied: 4 }).wf());
    assert(s4.wf());
    lemma_reversible(s4, steps[4].creates());
    let drop = |k: int| TableDropStatement { table: steps[k].table() };
    assert((Schema { tables: t5, applied: 5 }).drop_table(drop(4)) == Ok::<Schema, DbError>(s4));
    assert((Schema { tables: t4, applied: 4 }).drop_table(drop(3)) == Ok::<Schema, DbError>(s3));
    assert((Schema { tables: t3, applied: 3 }).drop_table(drop(2)) == Ok::<Schema, DbError>(s2));
    assert((Schema { tables: t2, applied: 2 }).drop_table(drop(1)) == Ok::<Schema, DbError>(s1));
    assert((Schema { tables: t1, applied: 1 }).drop_table(drop(0)) == Ok::<Schema, DbError>(s0));
    assert(reverted(Schema { tables: t0, applied: 0 }, steps) == (
        Schema::empty(),
        None::<DbError>,
    ));
    assert(reverted(Schema { tables: t1, applied: 1 }, steps) == reverted(
        Schema { tables: t0, applied: 0 },
        steps,
    ));
    assert(reverted(Schema { tables: t2, applied: 2 }, steps) == reverted(
        Schema { tables: t1, applied: 1 },
        steps,
    ));
    assert(reverted(Schema { tables: t3, applied: 3 }, steps) == reverted(
        Schema { tables: t2, applied: 2 },
        steps,
    ));
    assert(reverted(Schema { tables: t4, applied: 4 }, steps) == reverted(
        Schema { tables: t3, applied: 3 },
        steps,
    ));
    assert(reverted(Schema { tables: t5, applied: 5 }, steps) == reverted(
        Schema { tables: t4, applied: 4 },
        steps,
    ));
}

/// Once every migration has run, running them again changes nothing.
pub proof fn lemma_migrates_once(schema: Schema)
    requires
        schema.applied >= registered().len(),
    ensures
        migrated(schema, registered()) == (schema, None::<DbError>),
{
}

} // verus!
