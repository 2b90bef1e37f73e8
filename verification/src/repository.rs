//! One repository for each kind of row.

pub mod bookmark_repository;
pub mod groups_repository;
pub mod organization_repository;
pub mod user_repository;
pub mod workspace_repository;
