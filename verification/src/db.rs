//! Naming of the backing database: the development environment gets its own
//! database, every other environment shares the production one.
use vstd::prelude::*;

use crate::text::str_eq;

verus! {

/// The database name for an environment.
pub fn get_db_name(environment: &str) -> (name: String)
    ensures
        environment@ == "development"@ ==> name@ == "sailing-channels-dev"@,
        environment@ != "development"@ ==> name@ == "sailing-channels"@,
{
    if str_eq(environment, "development") {
        "sailing-channels-dev".to_owned()
    } else {
        "sailing-channels".to_owned()
    }
}

} // verus!
