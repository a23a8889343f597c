//! Cities.

use vstd::prelude::*;
use crate::http::{ErrorKind, Reply};
use crate::store::{Fetched, Written};

verus! {

pub const CITIES_ADDED: &'static str = "Cities added successfully";

pub const ADD_CITIES_FAILED: &'static str = "Failed to add cities";

pub const FETCH_CITIES_FAILED: &'static str = "Error fetching cities";

/// The answer to a request to add cities, once they were inserted or the
/// insert failed.
pub fn add_cities(written: Written) -> (r: Reply)
    ensures
        match written {
            Written::Done => r.is_created(CITIES_ADDED@),
            Written::Failed => r.is_failure(ErrorKind::DatabaseError, ADD_CITIES_FAILED@),
        },
        r.wf(),
{
    match written {
        Written::Done => Reply::created(CITIES_ADDED),
        Written::Failed => Reply::failure(ErrorKind::DatabaseError, ADD_CITIES_FAILED),
    }
}

/// The answer to a request for all cities.
pub fn get_cities(fetched: Fetched) -> (r: Reply)
    ensures
        match fetched {
            Fetched::Rows(_) => r.is_ok(Seq::<char>::empty()),
            Fetched::Failed => r.is_failure(ErrorKind::DatabaseError, FETCH_CITIES_FAILED@),
        },
        r.wf(),
{
    match fetched {
        Fetched::Rows(_) => Reply::data(),
        Fetched::Failed => Reply::failure(ErrorKind::DatabaseError, FETCH_CITIES_FAILED),
    }
}

} // verus!
