use vstd::prelude::*;

pub mod auth_storage;
pub mod crypto;
pub mod errors;
pub mod jsonout;
pub mod jsonval;
pub mod oauth_server;
pub mod pkce;
pub mod query;
pub mod strutil;
pub mod token_data;
pub mod urlenc;

verus! {

/// OAuth client id used by the desktop app, shared with the companion CLI.
pub const CLIENT_ID: &'static str = "app_EMoamEEZ73f0CkXaXp7hrann";

/// Environment variable that, when set and non-empty, forces API-key mode.
pub const OPENAI_API_KEY_ENV_VAR: &'static str = "OPENAI_API_KEY";

} // verus!
