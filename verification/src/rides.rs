//! Rides.

use vstd::prelude::*;
use crate::http::{ErrorKind, Reply};
use crate::store::{Deleted, Fetched, Lookup, Written};

verus! {

pub const FETCH_RIDES_FAILED: &'static str = "Failed to fetch rides";

pub const RIDE_NOT_FOUND: &'static str = "Ride not found";

pub const FETCH_RIDE_FAILED: &'static str = "Failed to fetch ride";

pub const RIDE_CREATED: &'static str = "Ride created successfully";

pub const CREATE_RIDE_FAILED: &'static str = "Failed to create ride";

pub const RIDE_DELETED: &'static str = "Ride deleted successfully";

pub const DELETE_RIDE_FAILED: &'static str = "Failed to delete ride";

/// The answer to a request for all rides.
pub fn get_all_rides(fetched: Fetched) -> (r: Reply)
    ensures
        match fetched {
            Fetched::Rows(_) => r.is_ok(Seq::<char>::empty()),
            Fetched::Failed => r.is_failure(ErrorKind::DatabaseError, FETCH_RIDES_FAILED@),
        },
        r.wf(),
{
    match fetched {
        Fetched::Rows(_) => Reply::data(),
        Fetched::Failed => Reply::failure(ErrorKind::DatabaseError, FETCH_RIDES_FAILED),
    }
}

/// The answer to a request for one ride.
pub fn get_ride(found: Lookup) -> (r: Reply)
    ensures
        match found {
            Lookup::Found => r.is_ok(Seq::<char>::empty()),
            Lookup::Missing => r.is_failure(ErrorKind::NotFoundError, RIDE_NOT_FOUND@),
            Lookup::Failed => r.is_failure(ErrorKind::DatabaseError, FETCH_RIDE_FAILED@),
        },
        r.wf(),
{
    match found {
        Lookup::Found => Reply::data(),
        Lookup::Missing => Reply::failure(ErrorKind::NotFoundError, RIDE_NOT_FOUND),
        Lookup::Failed => Reply::failure(ErrorKind::DatabaseError, FETCH_RIDE_FAILED),
    }
}

/// The answer to a request to create a ride, once the row was inserted or
/// the insert failed.
pub fn create_ride(written: Written) -> (r: Reply)
    ensures
        match written {
            Written::Done => r.is_created(RIDE_CREATED@),
            Written::Failed => r.is_failure(ErrorKind::DatabaseError, CREATE_RIDE_FAILED@),
        },
        r.wf(),
{
    match written {
        Written::Done => Reply::created(RIDE_CREATED),
        Written::Failed => Reply::failure(ErrorKind::DatabaseError, CREATE_RIDE_FAILED),
    }
}

/// The answer to a request to delete a ride.
pub fn delete_ride(deleted: Deleted) -> (r: Reply)
    ensures
        match deleted {
            Deleted::Rows(_) => r.is_ok(RIDE_DELETED@),
            Deleted::Failed => r.is_failure(ErrorKind::DatabaseError, DELETE_RIDE_FAILED@),
        },
        r.wf(),
{
    match deleted {
        Deleted::Rows(_) => Reply::ok(RIDE_DELETED),
        Deleted::Failed => Reply::failure(ErrorKind::DatabaseError, DELETE_RIDE_FAILED),
    }
}

} // verus!
