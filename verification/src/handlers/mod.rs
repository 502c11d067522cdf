//! The handlers: the computation each route performs once the middleware
//! chain has resolved identity, workspace and permission.

pub mod auth;
pub mod permissions;
pub mod role;
pub mod user;
pub mod workspace;
pub mod workspace_user;
