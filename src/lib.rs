//! Versioned snapshots of database dumps, kept as commits of a git repository,
//! and a registry that maps project names to database connection strings.
pub mod config;
pub mod db;
pub mod git;
pub mod paths;
pub mod project;
pub mod project_manager;
pub mod text;
