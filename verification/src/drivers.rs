//! Drivers: no two with one e-mail address or one phone number.

use vstd::prelude::*;
use crate::http::{ErrorKind, Reply};
use crate::store::{Fetched, Written};

verus! {

pub const CONNECTION_FAILED: &'static str = "Database connection failed";

pub const EMAIL_REGISTERED: &'static str = "Driver with this email already registered";

pub const PHONE_EXISTS: &'static str = "Phone number already exists";

pub const DRIVER_REGISTERED: &'static str = "Driver registered successfully!";

pub const CREATE_DRIVER_FAILED: &'static str = "Error creating driver";

pub const QUERY_FAILED: &'static str = "Database query failed";

pub const NO_DRIVERS: &'static str = "No drivers found";

pub const FETCH_DRIVERS_FAILED: &'static str = "Failed to fetch drivers";

/// The answer to the query for a driver with the e-mail address or the
/// phone number of a new driver.
#[derive(Debug)]
pub enum Existing {
    /// There is one, with this e-mail address.
    Found(String),
    /// There is none.
    Missing,
    /// The query failed.
    Failed,
}

/// Where the creation of a driver stands: what was asked last, with its answer.
#[derive(Debug)]
pub enum CreateDriver {
    /// A connection was asked for, and was made or not.
    Connected(bool),
    /// The database was asked for a driver with the address or the number.
    Checked(Existing),
    /// The database was asked to insert the driver.
    Saved(Written),
}

/// What creating a driver does next.
#[derive(Debug)]
pub enum DriverStep {
    /// Ask the database for a driver with this e-mail address or this
    /// phone number.
    FindByEmailOrPhone { email: String, phone: String },
    /// Ask the database to insert the driver.
    Insert,
    /// Answer the client.
    Answer(Reply),
}

impl DriverStep {
    /// The client is answered, with an error of `kind` and `message` as reason.
    pub open spec fn fails(&self, kind: ErrorKind, message: Seq<char>) -> bool {
        self matches DriverStep::Answer(reply) && reply.is_failure(kind, message)
    }

    /// Whatever is answered has the status that fits it.
    pub open spec fn wf(&self) -> bool {
        self matches DriverStep::Answer(reply) ==> reply.wf()
    }
}

/// What creating a driver with the e-mail address `email` and the phone
/// number `phone` does next. Once connected, the database is asked for a
/// driver with that address or that number, and the driver is inserted
/// only where the answer is that there is none; the conflict names the
/// address where the driver that was found has it, and the number
/// otherwise.
pub open spec fn create_driver_spec(
    at: CreateDriver,
    email: Seq<char>,
    phone: Seq<char>,
    next: DriverStep,
) -> bool {
    match at {
        CreateDriver::Connected(true) => next matches DriverStep::FindByEmailOrPhone {
            email: asked_email,
            phone: asked_phone,
        } && asked_email@ == email && asked_phone@ == phone,
        CreateDriver::Connected(false) => next.fails(ErrorKind::DatabaseError, CONNECTION_FAILED@),
        CreateDriver::Checked(Existing::Found(found)) => if found@ == email {
            next.fails(ErrorKind::ConflictError, EMAIL_REGISTERED@)
        } else {
            next.fails(ErrorKind::ConflictError, PHONE_EXISTS@)
        },
        CreateDriver::Checked(Existing::Missing) => next is Insert,
        CreateDriver::Checked(Existing::Failed) => next.fails(
            ErrorKind::DatabaseError,
            QUERY_FAILED@,
        ),
        CreateDriver::Saved(Written::Done) => next matches DriverStep::Answer(reply)
            && reply.is_created(DRIVER_REGISTERED@),
        CreateDriver::Saved(Written::Failed) => next.fails(
            ErrorKind::DatabaseError,
            CREATE_DRIVER_FAILED@,
        ),
    }
}

/// What creating a driver with the e-mail address `email` and the phone
/// number `phone` does next.
pub fn create_driver(at: &CreateDriver, email: &String, phone: &String) -> (next: DriverStep)
    ensures
        create_driver_spec(*at, email@, phone@, next),
        next.wf(),
{
    match at {
        CreateDriver::Connected(true) => DriverStep::FindByEmailOrPhone {
            email: email.clone(),
            phone: phone.clone(),
        },
        CreateDriver::Connected(false) => DriverStep::Answer(
            Reply::failure(ErrorKind::DatabaseError, CONNECTION_FAILED),
        ),
        CreateDriver::Checked(Existing::Found(found)) => {
            if *found == *email {
                DriverStep::Answer(Reply::failure(ErrorKind::ConflictError, EMAIL_REGISTERED))
            } else {
                DriverStep::Answer(Reply::failure(ErrorKind::ConflictError, PHONE_EXISTS))
            }
        },
        CreateDriver::Checked(Existing::Missing) => DriverStep::Insert,
        CreateDriver::Checked(Existing::Failed) => DriverStep::Answer(
            Reply::failure(ErrorKind::DatabaseError, QUERY_FAILED),
        ),
        CreateDriver::Saved(Written::Done) => DriverStep::Answer(Reply::created(DRIVER_REGISTERED)),
        CreateDriver::Saved(Written::Failed) => DriverStep::Answer(
            Reply::failure(ErrorKind::DatabaseError, CREATE_DRIVER_FAILED),
        ),
    }
}

/// Where the listing of the drivers stands: what was asked last, with its answer.
#[derive(Clone, Copy, Debug, PartialEq, Eq, Structural)]
pub enum GetDrivers {
    /// A connection was asked for, and was made or not.
    Connected(bool),
    /// The database was asked for all drivers.
    Listed(Fetched),
}

/// What listing the drivers does next.
#[derive(Debug)]
pub enum DriversStep {
    /// Ask the database for all drivers.
    Fetch,
    /// Answer the client.
    Answer(Reply),
}

/// What listing the drivers does next: once connected, the database is
/// asked for all drivers; they are answered, or, where there are none,
/// that there are none.
pub open spec fn get_drivers_spec(at: GetDrivers, next: DriversStep) -> bool {
    match at {
        GetDrivers::Connected(true) => next is Fetch,
        GetDrivers::Connected(false) => next matches DriversStep::Answer(reply)
            && reply.is_failure(ErrorKind::DatabaseError, CONNECTION_FAILED@),
        GetDrivers::Listed(Fetched::Rows(count)) => next matches DriversStep::Answer(reply) && (
        if count == 0 {
            reply.is_ok(NO_DRIVERS@)
        } else {
            reply.is_ok(Seq::<char>::empty())
        }),
        GetDrivers::Listed(Fetched::Failed) => next matches DriversStep::Answer(reply)
            && reply.is_failure(ErrorKind::DatabaseError, FETCH_DRIVERS_FAILED@),
    }
}

/// What listing the drivers does next.
pub fn get_drivers(at: GetDrivers) -> (next: DriversStep)
    ensures
        get_drivers_spec(at, next),
        next matches DriversStep::Answer(reply) ==> reply.wf(),
{
    match at {
        GetDrivers::Connected(true) => DriversStep::Fetch,
        GetDrivers::Connected(false) => DriversStep::Answer(
            Reply::failure(ErrorKind::DatabaseError, CONNECTION_FAILED),
        ),
        GetDrivers::Listed(Fetched::Rows(count)) => {
            if count == 0 {
                DriversStep::Answer(Reply::ok(NO_DRIVERS))
            } else {
                DriversStep::Answer(Reply::data())
            }
        },
        GetDrivers::Listed(Fetched::Failed) => DriversStep::Answer(
            Reply::failure(ErrorKind::DatabaseError, FETCH_DRIVERS_FAILED),
        ),
    }
}

} // verus!
