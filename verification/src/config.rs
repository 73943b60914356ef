//! Process configuration, captured once at startup and handed to the
//! services; reading the environment stays outside the library.

use vstd::prelude::*;

verus! {

pub struct AppConfig {
    pub server_addr: String,
    pub database_url: String,
    pub gcs_bucket_name: String,
}

} // verus!
