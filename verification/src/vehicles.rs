//! Vehicles: one for each driver.

use vstd::prelude::*;
use crate::http::{ErrorKind, Reply};
use crate::store::{Deleted, Fetched, Lookup, Written};

verus! {

pub const FETCH_VEHICLES_FAILED: &'static str = "Failed to fetch vehicles";

pub const VEHICLE_NOT_FOUND: &'static str = "Vehicle not found";

pub const FETCH_VEHICLE_FAILED: &'static str = "Failed to fetch vehicle";

pub const VEHICLE_EXISTS: &'static str = "Vehicle already created for this driver";

pub const CHECK_VEHICLE_FAILED: &'static str = "Error checking existing vehicle";

pub const VEHICLE_CREATED: &'static str = "Vehicle created successfully";

pub const CREATE_VEHICLE_FAILED: &'static str = "Failed to create vehicle";

pub const VEHICLE_DELETED: &'static str = "Vehicle deleted successfully";

pub const DELETE_VEHICLE_FAILED: &'static str = "Failed to delete vehicle";

/// The answer to a request for all vehicles.
pub fn get_all_vehicles(fetched: Fetched) -> (r: Reply)
    ensures
        match fetched {
            Fetched::Rows(_) => r.is_ok(Seq::<char>::empty()),
            Fetched::Failed => r.is_failure(ErrorKind::DatabaseError, FETCH_VEHICLES_FAILED@),
        },
        r.wf(),
{
    match fetched {
        Fetched::Rows(_) => Reply::data(),
        Fetched::Failed => Reply::failure(ErrorKind::DatabaseError, FETCH_VEHICLES_FAILED),
    }
}

/// The answer to a request for one vehicle.
pub fn get_vehicle(found: Lookup) -> (r: Reply)
    ensures
        match found {
            Lookup::Found => r.is_ok(Seq::<char>::empty()),
            Lookup::Missing => r.is_failure(ErrorKind::NotFoundError, VEHICLE_NOT_FOUND@),
            Lookup::Failed => r.is_failure(ErrorKind::DatabaseError, FETCH_VEHICLE_FAILED@),
        },
        r.wf(),
{
    match found {
        Lookup::Found => Reply::data(),
        Lookup::Missing => Reply::failure(ErrorKind::NotFoundError, VEHICLE_NOT_FOUND),
        Lookup::Failed => Reply::failure(ErrorKind::DatabaseError, FETCH_VEHICLE_FAILED),
    }
}

/// Where the creation of a vehicle stands: what was asked last, with its answer.
#[derive(Clone, Copy, Debug, PartialEq, Eq, Structural)]
pub enum VehicleProgress {
    /// Nothing was asked yet.
    Start,
    /// The database was asked for a vehicle of the driver.
    Checked(Lookup),
    /// The database was asked to insert the vehicle.
    Saved(Written),
}

/// What creating a vehicle does next.
#[derive(Debug)]
pub enum VehicleStep {
    /// Ask the database for a vehicle of the driver with this id.
    FindByDriver(i32),
    /// Ask the database to insert the vehicle.
    Insert,
    /// Answer the client.
    Answer(Reply),
}

impl VehicleStep {
    /// The client is answered, with an error of `kind` and `message` as reason.
    pub open spec fn fails(&self, kind: ErrorKind, message: Seq<char>) -> bool {
        self matches VehicleStep::Answer(reply) && reply.is_failure(kind, message)
    }

    /// Whatever is answered has the status that fits it.
    pub open spec fn wf(&self) -> bool {
        self matches VehicleStep::Answer(reply) ==> reply.wf()
    }
}

/// What creating a vehicle for the driver with the id `driver_id` does
/// next. The database is first asked for a vehicle of that driver, and a
/// driver who has one gets no second; only where the answer is that there
/// is none is the vehicle inserted.
pub open spec fn create_vehicle_spec(at: VehicleProgress, driver_id: i32, next: VehicleStep) -> bool {
    match at {
        VehicleProgress::Start => next matches VehicleStep::FindByDriver(asked) && asked
            == driver_id,
        VehicleProgress::Checked(Lookup::Found) => next.fails(
            ErrorKind::ConflictError,
            VEHICLE_EXISTS@,
        ),
        VehicleProgress::Checked(Lookup::Failed) => next.fails(
            ErrorKind::DatabaseError,
            CHECK_VEHICLE_FAILED@,
        ),
        VehicleProgress::Checked(Lookup::Missing) => next is Insert,
        VehicleProgress::Saved(Written::Done) => next matches VehicleStep::Answer(reply)
            && reply.is_created(VEHICLE_CREATED@),
        VehicleProgress::Saved(Written::Failed) => next.fails(
            ErrorKind::DatabaseError,
            CREATE_VEHICLE_FAILED@,
        ),
    }
}

/// What creating a vehicle for the driver with the id `driver_id` does next.
pub fn create_vehicle(at: VehicleProgress, driver_id: i32) -> (next: VehicleStep)
    ensures
        create_vehicle_spec(at, driver_id, next),
        next.wf(),
{
    match at {
        VehicleProgress::Start => VehicleStep::FindByDriver(driver_id),
        VehicleProgress::Checked(Lookup::Found) => VehicleStep::Answer(
            Reply::failure(ErrorKind::ConflictError, VEHICLE_EXISTS),
        ),
        VehicleProgress::Checked(Lookup::Failed) => VehicleStep::Answer(
            Reply::failure(ErrorKind::DatabaseError, CHECK_VEHICLE_FAILED),
        ),
        VehicleProgress::Checked(Lookup::Missing) => VehicleStep::Insert,
        VehicleProgress::Saved(Written::Done) => VehicleStep::Answer(Reply::created(VEHICLE_CREATED)),
        VehicleProgress::Saved(Written::Failed) => VehicleStep::Answer(
            Reply::failure(ErrorKind::DatabaseError, CREATE_VEHICLE_FAILED),
        ),
    }
}

/// The answer to a request to delete a vehicle.
pub fn delete_vehicle(deleted: Deleted) -> (r: Reply)
    ensures
        match deleted {
            Deleted::Rows(_) => r.is_ok(VEHICLE_DELETED@),
            Deleted::Failed => r.is_failure(ErrorKind::DatabaseError, DELETE_VEHICLE_FAILED@),
        },
        r.wf(),
{
    match deleted {
        Deleted::Rows(_) => Reply::ok(VEHICLE_DELETED),
        Deleted::Failed => Reply::failure(ErrorKind::DatabaseError, DELETE_VEHICLE_FAILED),
    }
}

} // verus!
