//! What can go wrong, from the store up to the caller of a procedure.
//!
//! Errors are plain values: they say which kind of row was concerned, and the
//! words for a reader are made from them on demand.

use vstd::prelude::*;
use vstd::string::StringExecFns;

use crate::entity::Entity;

verus! {

impl Entity {
    pub open spec fn name_text(self) -> Seq<char> {
        match self {
            Entity::User => "User"@,
            Entity::Organization => "Organization"@,
            Entity::Workspace => "Workspace"@,
            Entity::Group => "Group"@,
            Entity::Bookmark => "Bookmark"@,
        }
    }

    /// The word for this kind of row in messages.
    pub fn name(self) -> (r: &'static str)
        ensures
            r@ == self.name_text(),
    {
        match self {
            Entity::User => "User",
            Entity::Organization => "Organization",
            Entity::Workspace => "Workspace",
            Entity::Group => "Group",
            Entity::Bookmark => "Bookmark",
        }
    }
}

/// An error of the store or of a database driver.
#[derive(Debug, PartialEq, Eq)]
pub enum DbError {
    /// No row of this kind has the key that was asked for.
    RecordNotFound(Entity),
    /// An insert left a column without a value that may not be null.
    AttrNotSet(Entity),
    /// An insert staged a primary key, which only the store gives out.
    PrimaryKeyStaged(Entity),
    /// An update staged no primary key.
    UpdateGetPrimaryKey(Entity),
    /// A row of this kind names a parent that is not stored.
    ForeignKeyViolation(Entity),
    /// The table has given out its last key.
    KeysExhausted(Entity),
    /// The table of this kind of row could not be created or dropped.
    Migration(Entity),
    /// What a database driver reported, in its own words, and whether it
    /// reported a missing row.
    Driver { not_found: bool, message: String },
}

impl DbError {
    /// The error says that a row is missing.
    pub open spec fn not_found(self) -> bool {
        match self {
            DbError::RecordNotFound(_) => true,
            DbError::Driver { not_found, .. } => not_found,
            _ => false,
        }
    }

    pub fn is_not_found(&self) -> (r: bool)
        ensures
            r == self.not_found(),
    {
        match self {
            DbError::RecordNotFound(_) => true,
            DbError::Driver { not_found, .. } => *not_found,
            _ => false,
        }
    }

    pub open spec fn message_text(self) -> Seq<char> {
        match self {
            DbError::RecordNotFound(e) => e.name_text() + " not found"@,
            DbError::AttrNotSet(e) => e.name_text() + ": a required column is not set"@,
            DbError::PrimaryKeyStaged(e) => e.name_text() + ": the primary key is generated"@,
            DbError::UpdateGetPrimaryKey(e) => e.name_text() + ": the primary key is not set"@,
            DbError::ForeignKeyViolation(e) => e.name_text() + ": the parent row does not exist"@,
            DbError::KeysExhausted(e) => e.name_text() + ": no primary key is left"@,
            DbError::Migration(e) => e.name_text() + ": the migration cannot be applied"@,
            DbError::Driver { message, .. } => message@,
        }
    }

    /// The error in words.
    pub fn message(&self) -> (r: String)
        ensures
            r@ == self.message_text(),
    {
        match self {
            DbError::RecordNotFound(e) => e.name().to_owned().concat(" not found"),
            DbError::AttrNotSet(e) => e.name().to_owned().concat(": a required column is not set"),
            DbError::PrimaryKeyStaged(e) => e.name().to_owned().concat(
                ": the primary key is generated",
            ),
            DbError::UpdateGetPrimaryKey(e) => e.name().to_owned().concat(
                ": the primary key is not set",
            ),
            DbError::ForeignKeyViolation(e) => e.name().to_owned().concat(
                ": the parent row does not exist",
            ),
            DbError::KeysExhausted(e) => e.name().to_owned().concat(": no primary key is left"),
            DbError::Migration(e) => e.name().to_owned().concat(
                ": the migration cannot be applied",
            ),
            DbError::Driver { message, .. } => message.clone(),
        }
    }

    /// The library's error for an error of the database driver: the driver's
    /// own words, and whether it reported a missing row.
    pub fn from_driver(e: sea_orm::DbErr) -> (r: DbError)
        ensures
            r is Driver,
            r->not_found == driver_missing_row(e),
            r->message@ == driver_text(e),
    {
        driver_error(e)
    }
}

/// `sea_orm::DbErr`, the error of the database driver. The proofs see nothing
/// of what is in it.
#[verifier::external_type_specification]
#[verifier::external_body]
pub struct ExDriverError(sea_orm::DbErr);

/// Whether the error of the driver is its variant `RecordNotFound`.
pub uninterp spec fn driver_missing_row(e: sea_orm::DbErr) -> bool;

/// What the `Display` of the error of the driver writes.
pub uninterp spec fn driver_text(e: sea_orm::DbErr) -> Seq<char>;

/// Takes a `sea_orm::DbErr` apart: whether it is the variant `RecordNotFound`,
/// and the text that its `Display` writes, which is the message for every
/// variant. Both are functions of the error alone; what they are is left to
/// `driver_missing_row` and `driver_text`.
#[verifier::external_body]
fn driver_error(e: sea_orm::DbErr) -> (r: DbError)
    ensures
        r is Driver,
        r->not_found == driver_missing_row(e),
        r->message@ == driver_text(e),
{
    let message = e.to_string();
    match e {
        sea_orm::DbErr::RecordNotFound(_) => DbError::Driver { not_found: true, message },
        _ => DbError::Driver { not_found: false, message },
    }
}

/// An error of a service, by what the caller can do about it.
#[derive(Debug, PartialEq, Eq)]
pub enum ServiceError {
    /// The row that was asked for is not stored.
    NotFound(DbError),
    /// The input lacks what the operation needs: an update of this kind of
    /// row came without an id.
    ValidationError(Entity),
    /// The store or the driver failed.
    DatabaseFailure(DbError),
    /// The database could not be reached or prepared when the process started.
    ConnectionFailure(DbError),
}

impl ServiceError {
    /// How a service reports an error of the store: a missing row as such,
    /// everything else as a failure of the database.
    pub open spec fn of(e: DbError) -> ServiceError {
        if e.not_found() {
            ServiceError::NotFound(e)
        } else {
            ServiceError::DatabaseFailure(e)
        }
    }

    pub fn from_db_err(e: DbError) -> (r: ServiceError)
        ensures
            r == ServiceError::of(e),
    {
        if e.is_not_found() {
            ServiceError::NotFound(e)
        } else {
            ServiceError::DatabaseFailure(e)
        }
    }

    /// How an error of the database driver is reported while requests are
    /// served: a missing row as not found, everything else as a failure of the
    /// database, each with the driver's words.
    pub fn from_driver(e: sea_orm::DbErr) -> (r: ServiceError)
        ensures
            r is NotFound <==> driver_missing_row(e),
            r is DatabaseFailure <==> !driver_missing_row(e),
            r matches ServiceError::NotFound(cause) ==> cause is Driver && cause->not_found
                && cause->message@ == driver_text(e),
            r matches ServiceError::DatabaseFailure(cause) ==> cause is Driver
                && !cause->not_found && cause->message@ == driver_text(e),
    {
        ServiceError::from_db_err(DbError::from_driver(e))
    }

    /// Any error while connecting or migrating at start is fatal.
    pub fn at_startup(e: DbError) -> (r: ServiceError)
        ensures
            r == ServiceError::ConnectionFailure(e),
    {
        ServiceError::ConnectionFailure(e)
    }

    pub open spec fn message_text(self) -> Seq<char> {
        match self {
            ServiceError::NotFound(e) => e.message_text(),
            ServiceError::ValidationError(e) => e.name_text() + " ID is required for update"@,
            ServiceError::DatabaseFailure(e) => e.message_text(),
            ServiceError::ConnectionFailure(e) => e.message_text(),
        }
    }

    /// The error in words.
    pub fn message(&self) -> (r: String)
        ensures
            r@ == self.message_text(),
    {
        match self {
            ServiceError::NotFound(e) => e.message(),
            ServiceError::ValidationError(e) => e.name().to_owned().concat(
                " ID is required for update",
            ),
            ServiceError::DatabaseFailure(e) => e.message(),
            ServiceError::ConnectionFailure(e) => e.message(),
        }
    }
}

} // verus!
