//! A multi-tenant authorization library: signed session tokens, identity
//! resolution, workspace-scoped roles and permissions, and membership
//! management over a relational-style store.

pub mod config;
pub mod dtos;
pub mod errors;
pub mod handlers;
pub mod mail;
pub mod middleware;
pub mod models;
pub mod password;
pub mod permissions;
pub mod store;
pub mod text;
pub mod token;

use vstd::prelude::*;

verus! {

} // verus!
