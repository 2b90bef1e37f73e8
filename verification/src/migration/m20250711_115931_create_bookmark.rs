//! Creates the bookmark table.

use vstd::prelude::*;

use crate::entity::Entity;
use crate::error::DbError;
use crate::migration::{
    boolean, integer, pk_auto, plain, string, timestamp, Column, ColumnDef, ColumnType,
    ForeignKey, SchemaManager, TableCreateStatement, TableCreateView, TableDropStatement,
};

verus! {

/// The bookmark table: its columns, and the foreign key by which
/// a bookmark hangs on its group.
pub open spec fn table() -> TableCreateView {
    TableCreateView {
        table: Entity::Bookmark,
        if_not_exists: true,
        columns: seq![
            ColumnDef {
                primary_key: true,
                auto_increment: true,
                ..plain(Column::Id, ColumnType::Integer)
            },
            plain(Column::Name, ColumnType::String),
            plain(Column::Url, ColumnType::String),
            plain(Column::Tags, ColumnType::String),
            plain(Column::IsFavorite, ColumnType::Boolean),
            ColumnDef { null: true, ..plain(Column::GroupId, ColumnType::Integer) },
            plain(Column::CreatedAt, ColumnType::Timestamp),
            plain(Column::UpdatedAt, ColumnType::Timestamp),
            ColumnDef { null: true, ..plain(Column::DeletedAt, ColumnType::Timestamp) },
        ],
        foreign_key: Some(
            ForeignKey::cascading(Entity::Bookmark, Column::GroupId, Entity::Group),
        ),
    }
}

/// The migration of the bookmark table.
#[derive(Clone, Copy, Debug, PartialEq, Eq, Structural)]
pub struct Migration;

impl Migration {
    /// The statement that creates the table.
    pub fn statement(&self) -> (r: TableCreateStatement)
        ensures
            r@ == table(),
    {
        let mut columns: Vec<ColumnDef> = Vec::new();
        columns.push(pk_auto(Column::Id));
        columns.push(string(Column::Name));
        columns.push(string(Column::Url));
        columns.push(string(Column::Tags));
        columns.push(boolean(Column::IsFavorite));
        columns.push(integer(Column::GroupId).null());
        columns.push(timestamp(Column::CreatedAt));
        columns.push(timestamp(Column::UpdatedAt));
        columns.push(timestamp(Column::DeletedAt).null());
        let r = TableCreateStatement {
            table: Entity::Bookmark,
            if_not_exists: true,
            columns,
            foreign_key: Some(
                ForeignKey::cascade(Entity::Bookmark, Column::GroupId, Entity::Group),
            ),
        };
        assert(r@.columns =~= table().columns);
        r
    }

    /// Creates the table, unless it exists.
    pub fn up(&self, manager: &mut SchemaManager) -> (r: Result<(), DbError>)
        ensures
            match old(manager)@.create_table(table()) {
                Ok(schema) => r is Ok && final(manager)@ == schema,
                Err(e) => r == Err::<(), DbError>(e) && final(manager)@ == old(manager)@,
            },
    {
        manager.create_table(self.statement())
    }

    /// Drops the table.
    pub fn down(&self, manager: &mut SchemaManager) -> (r: Result<(), DbError>)
        ensures
            match old(manager)@.drop_table(TableDropStatement { table: Entity::Bookmark }) {
                Ok(schema) => r is Ok && final(manager)@ == schema,
                Err(e) => r == Err::<(), DbError>(e) && final(manager)@ == old(manager)@,
            },
    {
        manager.drop_table(TableDropStatement { table: Entity::Bookmark })
    }
}

} // verus!
