//! The five tables' rows, and rows staged for writing.
//!
//! A row is plain data. A staged row says of each column whether it is to be
//! written: an insert writes every column that has a value, an update only the
//! columns that were changed.

use vstd::prelude::*;

pub mod bookmark;
pub mod groups;
pub mod organization;
pub mod user;
pub mod workspace;

verus! {

/// A row of the user table.
pub type User = user::Model;

/// A row of the organization table.
pub type Organization = organization::Model;

/// A row of the workspace table.
pub type Workspace = workspace::Model;

/// A row of the groups table.
pub type Groups = groups::Model;

/// A row of the bookmark table.
pub type Bookmark = bookmark::Model;

/// The five kinds of row.
#[derive(Clone, Copy, Debug, PartialEq, Eq, Structural)]
pub enum Entity {
    User,
    Organization,
    Workspace,
    Group,
    Bookmark,
}

/// A column of a staged row.
#[derive(Debug, PartialEq, Eq)]
pub enum ActiveValue<T> {
    /// The value is to be written.
    Changed(T),
    /// The value is what the store already holds.
    Unchanged(T),
    /// The column has no value.
    NotSet,
}

impl<T> ActiveValue<T> {
    /// The value that the column holds, whether it is to be written or not.
    pub open spec fn known(self) -> Option<T> {
        match self {
            ActiveValue::Changed(v) => Some(v),
            ActiveValue::Unchanged(v) => Some(v),
            ActiveValue::NotSet => None,
        }
    }

    /// What an update leaves in a column that held `old`.
    pub open spec fn over(self, old: T) -> T {
        match self {
            ActiveValue::Changed(v) => v,
            _ => old,
        }
    }

    /// This column where it is changed, else the column `base`.
    pub open spec fn or(self, base: ActiveValue<T>) -> ActiveValue<T> {
        match self {
            ActiveValue::Changed(v) => ActiveValue::Changed(v),
            _ => base,
        }
    }

    pub fn is_changed(&self) -> (r: bool)
        ensures
            r == (*self is Changed),
    {
        match self {
            ActiveValue::Changed(_) => true,
            _ => false,
        }
    }

    pub fn is_unchanged(&self) -> (r: bool)
        ensures
            r == (*self is Unchanged),
    {
        match self {
            ActiveValue::Unchanged(_) => true,
            _ => false,
        }
    }

    pub fn is_not_set(&self) -> (r: bool)
        ensures
            r == (*self is NotSet),
    {
        match self {
            ActiveValue::NotSet => true,
            _ => false,
        }
    }

    pub fn into_value(self) -> (r: Option<T>)
        ensures
            r == self.known(),
    {
        match self {
            ActiveValue::Changed(v) => Some(v),
            ActiveValue::Unchanged(v) => Some(v),
            ActiveValue::NotSet => None,
        }
    }

    /// The value of a column that has one.
    pub fn unwrap(self) -> (r: T)
        requires
            !(self is NotSet),
        ensures
            Some(r) == self.known(),
    {
        match self {
            ActiveValue::Changed(v) => v,
            ActiveValue::Unchanged(v) => v,
            ActiveValue::NotSet => vstd::pervasive::unreached(),
        }
    }

    pub fn write_over(self, old: T) -> (r: T)
        ensures
            r == self.over(old),
    {
        match self {
            ActiveValue::Changed(v) => v,
            _ => old,
        }
    }

    pub fn or_else(self, base: ActiveValue<T>) -> (r: ActiveValue<T>)
        ensures
            r == self.or(base),
    {
        match self {
            ActiveValue::Changed(v) => ActiveValue::Changed(v),
            _ => base,
        }
    }
}

/// A row with a primary key.
pub trait Record: Sized {
    /// The row's primary key.
    spec fn key(&self) -> i32;

    fn id(&self) -> (r: i32)
        ensures
            r == self.key(),
    ;

    /// A second copy of the row.
    fn duplicate(&self) -> (r: Self)
        ensures
            r == *self,
    ;
}

/// A row that names its parent by a foreign key, or has none.
pub trait Owned: Record {
    /// The key of the parent row, if the row has a parent.
    spec fn owner(&self) -> Option<i32>;

    fn owner_id(&self) -> (r: Option<i32>)
        ensures
            r == self.owner(),
    ;
}

} // verus!
