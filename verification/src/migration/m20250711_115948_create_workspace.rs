//! Creates the workspace table.

use vstd::prelude::*;

use crate::entity::Entity;
use crate::error::DbError;
use crate::migration::{
    integer, pk_auto, plain, string, timestamp, Column, ColumnDef, ColumnType, ForeignKey,
    SchemaManager, TableCreateStatement, TableCreateView, TableDropStatement,
};

verus! {

/// The workspace table: its columns, and the foreign key by which
/// a workspace hangs on its organization.
pub open spec fn table() -> TableCreateView {
    TableCreateView {
        table: Entity::Workspace,
        if_not_exists: true,
        columns: seq![
            ColumnDef {
                primary_key: true,
                auto_increment: true,
                ..plain(Column::Id, ColumnType::Integer)
            },
            plain(Column::Name, ColumnType::String),
            plain(Column::OrganizationId, ColumnType::Integer),
            plain(Column::CreatedAt, ColumnType::Timestamp),
            plain(Column::UpdatedAt, ColumnType::Timestamp),
            ColumnDef { null: true, ..plain(Column::DeletedAt, ColumnType::Timestamp) },
        ],
        foreign_key: Some(
            ForeignKey::cascading(Entity::Workspace, Column::OrganizationId, Entity::Organization),
        ),
    }
}

/// The migration of the workspace table.
#[derive(Clone, Copy, Debug, PartialEq, Eq, Structural)]
pub struct Migration;

impl Migration {
    /// The statement that creates the table.
    pub fn statement(&self) -> (r: TableCreateStatement)
        ensures
            r@ == table(),
    {
        let mut columns: Vec<ColumnDef> = Vec::new();
        columns.push(pk_auto(Column::Id));
        columns.push(string(Column::Name));
        columns.push(integer(Column::OrganizationId));
        columns.push(timestamp(Column::CreatedAt));
        columns.push(timestamp(Column::UpdatedAt));
        columns.push(timestamp(Column::DeletedAt).null());
        let r = TableCreateStatement {
            table: Entity::Workspace,
            if_not_exists: true,
            columns,
            foreign_key: Some(
                ForeignKey::cascade(
                    Entity::Workspace,
                    Column::OrganizationId,
                    Entity::Organization,
                ),
            ),
        };
        assert(r@.columns =~= table().columns);
        r
    }

    /// Creates the table, unless it exists.
    pub fn up(&self, manager: &mut SchemaManager) -> (r: Result<(), DbError>)
        ensures
            match old(manager)@.create_table(table()) {
                Ok(schema) => r is Ok && final(manager)@ == schema,
                Err(e) => r == Err::<(), DbError>(e) && final(manager)@ == old(manager)@,
            },
    {
        manager.create_table(self.statement())
    }

    /// Drops the table.
    pub fn down(&self, manager: &mut SchemaManager) -> (r: Result<(), DbError>)
        ensures
            match old(manager)@.drop_table(TableDropStatement { table: Entity::Workspace }) {
                Ok(schema) => r is Ok && final(manager)@ == schema,
                Err(e) => r == Err::<(), DbError>(e) && final(manager)@ == old(manager)@,
            },
    {
        manager.drop_table(TableDropStatement { table: Entity::Workspace })
    }
}

} // verus!
