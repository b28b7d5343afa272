//! The SQL text of the companies backend: the idempotent schema
//! script and the pattern builder of the filtered listing.  The
//! relational client binds and executes these outside the library.

use vstd::prelude::*;

verus! {

/// The provisioning script of the company table.  Creation is
/// idempotent on its own (`IF NOT EXISTS`); the unique constraint on
/// the business key is what the backend leans on for key uniqueness.
pub const COMPANY_QUERY: &'static str = "
            CREATE TABLE IF NOT EXISTS company (
                id TEXT PRIMARY KEY,
                name TEXT NOT NULL,
                cif_number TEXT UNIQUE,
                billing_address TEXT,
                postal_code INTEGER,
                city TEXT,
                province TEXT,
                industry TEXT,
                industry_sub_category TEXT,
                created_at TIMESTAMP WITH TIME ZONE NOT NULL,
                updated_at TIMESTAMP WITH TIME ZONE NOT NULL
            )
            ";

/// The pattern the filtered listing hands to a case-insensitive
/// `LIKE`: the filter wrapped in wildcards.
pub open spec fn spec_like_pattern(name: Seq<char>) -> Seq<char> {
    "%"@ + name + "%"@
}

/// Builds the wildcard pattern of the filtered listing.
pub fn like_pattern(name: &str) -> (p: String)
    ensures
        p@ == spec_like_pattern(name@),
{
    String::from_str("%").concat(name).concat("%")
}

} // verus!
