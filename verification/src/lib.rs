//! The core of a bookmark manager: users own organizations, organizations own
//! workspaces, workspaces own groups and groups own bookmarks.
//!
//! Every layer is verified: the row and transfer types with their converters,
//! a relational store that keeps foreign keys intact and cascades deletes, the
//! repositories and services over it, and the table of named procedures with
//! its error codes.

pub mod database;
pub mod db;
pub mod dto;
pub mod entity;
pub mod error;
pub mod migration;
pub mod repository;
pub mod router;
pub mod service;
pub mod table;
pub mod text;
pub mod time;
