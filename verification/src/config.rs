//! Service configuration as plain data. Loading it from the environment
//! is the embedding program's job.

use vstd::prelude::*;

verus! {

/// The service configuration.
#[derive(Debug)]
pub struct Config {
    pub database_url: String,
    pub jwt_secret: String,
    pub jwt_maxage: u64,
    pub port: u16,
    pub backend_base_url: String,
    pub frontend_base_url: String,
}

/// The mail-transport configuration.
#[derive(Debug)]
pub struct MailConfig {
    pub smtp_server: String,
    pub smtp_port: u16,
    pub smtp_username: String,
    pub smtp_password: String,
    pub smtp_from_address: String,
    pub mail_template_path: String,
}

} // verus!
