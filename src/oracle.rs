//! Connection settings and query results for an Oracle database.

use vstd::prelude::*;
use vstd::string::*;
use crate::text::{decimal_of, decimal_text};

verus! {

pub struct OracleConfig {
    pub host: String,
    pub port: u16,
    pub service_name: String,
    pub username: String,
    pub password: String,
}

/// Column names and the rows of a query, each value as text.
pub struct QueryData {
    pub meta_data: Vec<String>,
    pub rows: Vec<Vec<String>>,
}

/// The number of rows a query returns when the caller sets no limit.
pub const DEFAULT_MAX_ROWS: usize = 1000;

/// `host:port/service`, the easy-connect form of the settings.
pub open spec fn connect_string_of(cfg: OracleConfig) -> Seq<char> {
    cfg.host@ + ":"@ + decimal_of(cfg.port as nat) + "/"@ + cfg.service_name@
}

pub fn get_connect_string(cfg: &OracleConfig) -> (r: String)
    ensures
        r@ == connect_string_of(*cfg),
{
    let port = decimal_text(cfg.port as u64);
    let s = cfg.host.clone().concat(":").concat(port.as_str()).concat("/").concat(
        cfg.service_name.as_str(),
    );
    s
}

/// The number of rows to fetch at most.
pub fn row_limit(max_rows: Option<usize>) -> (r: usize)
    ensures
        r == match max_rows {
            Some(n) => n,
            None => DEFAULT_MAX_ROWS,
        },
{
    match max_rows {
        Some(n) => n,
        None => DEFAULT_MAX_ROWS,
    }
}

} // verus!
