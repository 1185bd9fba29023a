//! Application settings.

use vstd::prelude::*;

verus! {

/// Where the application's database lives.
pub struct AppConfig {
    pub db_path: String,
}

} // verus!
