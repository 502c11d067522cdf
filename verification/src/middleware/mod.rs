//! The per-request resolution chain: identity from the session token,
//! then workspace and permission from the workspace cookie.

pub mod jwt_auth_middleware;
pub mod workspace_middleware;
