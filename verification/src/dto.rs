//! The shapes that cross the procedure boundary: a read view, a create input
//! and an update input for each kind of row.

pub mod bookmark;
pub mod groups;
pub mod organization;
pub mod user;
pub mod workspace;
