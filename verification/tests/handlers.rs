use arrively::cities::{add_cities, get_cities};
use arrively::db::{establish_connection_pool, startup, Attempt, Connecting, PoolStep};
use arrively::db::{Startup, StartupError, StartupFailure, StartupStep};
use arrively::db::{CONNECT_TIMEOUT_SECS, DATABASE_URL, LISTEN_ADDRESS};
use arrively::drivers::{create_driver, get_drivers, CreateDriver, DriverStep, DriversStep};
use arrively::drivers::{Existing, GetDrivers};
use arrively::http::{ErrorKind, Reply};
use arrively::rides::{create_ride, delete_ride, get_all_rides, get_ride};
use arrively::settings::{create_settings, delete_settings, get_settings, not_found};
use arrively::settings::{update_settings, CreateSettings, Inserted, Settings, SettingsAt};
use arrively::settings::{SettingsLookup, SettingsStep, UpdateSettings};
use arrively::store::{Deleted, Fetched, Lookup, Written};
use arrively::tickets::{create_ticket, delete_ticket, get_tickets, update_ticket};
use arrively::tickets::{Ticket, TicketAt, TicketInput, TicketLookup, TicketStep, TicketUpdateInput};
use arrively::vehicles::{create_vehicle, delete_vehicle, get_all_vehicles, get_vehicle};
use arrively::vehicles::{VehicleProgress, VehicleStep};

fn settings_answer(next: SettingsStep) -> Reply {
    match next {
        SettingsStep::Answer(reply) => reply,
        other => panic!("no answer yet: {:?}", other),
    }
}

fn ticket_answer(next: TicketStep) -> Reply {
    match next {
        TicketStep::Answer(reply) => reply,
        other => panic!("no answer yet: {:?}", other),
    }
}

fn drivers_answer(next: DriversStep) -> Reply {
    match next {
        DriversStep::Answer(reply) => reply,
        DriversStep::Fetch => panic!("no answer yet"),
    }
}

fn expect(reply: Reply, code: u16, error: Option<ErrorKind>, message: &str) {
    assert_eq!(reply.status.code(), code);
    assert_eq!(reply.error, error);
    assert_eq!(reply.message, message);
}

const DATABASE: Option<ErrorKind> = Some(ErrorKind::DatabaseError);
const NOT_FOUND: Option<ErrorKind> = Some(ErrorKind::NotFoundError);
const CONFLICT: Option<ErrorKind> = Some(ErrorKind::ConflictError);

#[test]
fn vehicles_are_listed_and_fetched() {
    expect(get_all_vehicles(Fetched::Rows(2)), 200, None, "");
    expect(get_all_vehicles(Fetched::Rows(0)), 200, None, "");
    expect(get_all_vehicles(Fetched::Failed), 500, DATABASE, "Failed to fetch vehicles");
    expect(get_vehicle(Lookup::Found), 200, None, "");
    expect(get_vehicle(Lookup::Missing), 404, NOT_FOUND, "Vehicle not found");
    expect(get_vehicle(Lookup::Failed), 500, DATABASE, "Failed to fetch vehicle");
}

fn vehicle_answer(step: VehicleStep) -> Reply {
    match step {
        VehicleStep::Answer(reply) => reply,
        other => panic!("no answer yet: {:?}", other),
    }
}

#[test]
fn a_driver_has_one_vehicle() {
    assert!(matches!(create_vehicle(VehicleProgress::Start, 12), VehicleStep::FindByDriver(12)));
    assert!(matches!(create_vehicle(VehicleProgress::Start, -3), VehicleStep::FindByDriver(-3)));
    expect(
        vehicle_answer(create_vehicle(VehicleProgress::Checked(Lookup::Found), 12)),
        409,
        CONFLICT,
        "Vehicle already created for this driver",
    );
    assert!(matches!(
        create_vehicle(VehicleProgress::Checked(Lookup::Missing), 12),
        VehicleStep::Insert
    ));
    expect(
        vehicle_answer(create_vehicle(VehicleProgress::Checked(Lookup::Failed), 12)),
        500,
        DATABASE,
        "Error checking existing vehicle",
    );
    expect(
        vehicle_answer(create_vehicle(VehicleProgress::Saved(Written::Done), 12)),
        201,
        None,
        "Vehicle created successfully",
    );
    expect(
        vehicle_answer(create_vehicle(VehicleProgress::Saved(Written::Failed), 12)),
        500,
        DATABASE,
        "Failed to create vehicle",
    );
}

#[test]
fn vehicles_are_deleted() {
    expect(delete_vehicle(Deleted::Rows(1)), 200, None, "Vehicle deleted successfully");
    expect(delete_vehicle(Deleted::Rows(0)), 200, None, "Vehicle deleted successfully");
    expect(delete_vehicle(Deleted::Failed), 500, DATABASE, "Failed to delete vehicle");
}

#[test]
fn rides_are_listed_fetched_created_and_deleted() {
    expect(get_all_rides(Fetched::Rows(5)), 200, None, "");
    expect(get_all_rides(Fetched::Failed), 500, DATABASE, "Failed to fetch rides");
    expect(get_ride(Lookup::Found), 200, None, "");
    expect(get_ride(Lookup::Missing), 404, NOT_FOUND, "Ride not found");
    expect(get_ride(Lookup::Failed), 500, DATABASE, "Failed to fetch ride");
    expect(create_ride(Written::Done), 201, None, "Ride created successfully");
    expect(create_ride(Written::Failed), 500, DATABASE, "Failed to create ride");
    expect(delete_ride(Deleted::Rows(1)), 200, None, "Ride deleted successfully");
    expect(delete_ride(Deleted::Failed), 500, DATABASE, "Failed to delete ride");
}

#[test]
fn cities_are_added_and_listed() {
    expect(add_cities(Written::Done), 201, None, "Cities added successfully");
    expect(add_cities(Written::Failed), 500, DATABASE, "Failed to add cities");
    expect(get_cities(Fetched::Rows(1)), 200, None, "");
    expect(get_cities(Fetched::Failed), 500, DATABASE, "Error fetching cities");
}

fn driver_answer(step: DriverStep) -> Reply {
    match step {
        DriverStep::Answer(reply) => reply,
        other => panic!("no answer yet: {:?}", other),
    }
}

#[test]
fn a_driver_is_created_where_address_and_number_are_free() {
    let email = "d@example.com".to_string();
    let phone = "+15557654321".to_string();
    match create_driver(&CreateDriver::Connected(true), &email, &phone) {
        DriverStep::FindByEmailOrPhone { email, phone } => {
            assert_eq!(email, "d@example.com");
            assert_eq!(phone, "+15557654321");
        }
        other => panic!("{:?}", other),
    }
    expect(
        driver_answer(create_driver(&CreateDriver::Connected(false), &email, &phone)),
        500,
        DATABASE,
        "Database connection failed",
    );
    assert!(matches!(
        create_driver(&CreateDriver::Checked(Existing::Missing), &email, &phone),
        DriverStep::Insert
    ));
    expect(
        driver_answer(create_driver(&CreateDriver::Checked(Existing::Failed), &email, &phone)),
        500,
        DATABASE,
        "Database query failed",
    );
    expect(
        driver_answer(create_driver(&CreateDriver::Saved(Written::Done), &email, &phone)),
        201,
        None,
        "Driver registered successfully!",
    );
    expect(
        driver_answer(create_driver(&CreateDriver::Saved(Written::Failed), &email, &phone)),
        500,
        DATABASE,
        "Error creating driver",
    );
}

#[test]
fn a_conflict_names_the_address_or_the_number() {
    let email = "d@example.com".to_string();
    let phone = "+15557654321".to_string();
    let same = CreateDriver::Checked(Existing::Found("d@example.com".to_string()));
    expect(
        driver_answer(create_driver(&same, &email, &phone)),
        409,
        CONFLICT,
        "Driver with this email already registered",
    );
    let other = CreateDriver::Checked(Existing::Found("e@example.com".to_string()));
    expect(
        driver_answer(create_driver(&other, &email, &phone)),
        409,
        CONFLICT,
        "Phone number already exists",
    );
    let upper = CreateDriver::Checked(Existing::Found("D@example.com".to_string()));
    expect(
        driver_answer(create_driver(&upper, &email, &phone)),
        409,
        CONFLICT,
        "Phone number already exists",
    );
}

#[test]
fn drivers_are_listed() {
    assert!(matches!(get_drivers(GetDrivers::Connected(true)), DriversStep::Fetch));
    expect(
        drivers_answer(get_drivers(GetDrivers::Connected(false))),
        500,
        DATABASE,
        "Database connection failed",
    );
    expect(
        drivers_answer(get_drivers(GetDrivers::Listed(Fetched::Rows(0)))),
        200,
        None,
        "No drivers found",
    );
    expect(drivers_answer(get_drivers(GetDrivers::Listed(Fetched::Rows(1)))), 200, None, "");
    expect(
        drivers_answer(get_drivers(GetDrivers::Listed(Fetched::Failed))),
        500,
        DATABASE,
        "Failed to fetch drivers",
    );
}

fn new_settings() -> CreateSettings {
    CreateSettings {
        user_id: 9,
        language: "en".to_string(),
        notifications_enabled: true,
        dark_mode: false,
        currency: "USD".to_string(),
    }
}

#[test]
fn settings_are_created_and_read_back() {
    let request = new_settings();
    match create_settings(SettingsAt::Start, &request, 1000) {
        SettingsStep::Insert(row) => {
            assert_eq!(row.id, 0);
            assert_eq!(row.user_id, 9);
            assert_eq!(row.language, "en");
            assert!(row.notifications_enabled);
            assert!(!row.dark_mode);
            assert_eq!(row.currency, "USD");
            assert_eq!(row.created_at, 1000);
            assert_eq!(row.updated_at, 1000);
        }
        other => panic!("{:?}", other),
    }
    assert!(matches!(
        create_settings(SettingsAt::Inserted(Inserted::Done(31)), &request, 1000),
        SettingsStep::FindById(31)
    ));
    expect(
        settings_answer(create_settings(SettingsAt::Inserted(Inserted::Failed), &request, 1000)),
        500,
        DATABASE,
        "Database insert error",
    );
    let found = SettingsAt::Looked(SettingsLookup::Found(settings_row()));
    expect(settings_answer(create_settings(found, &request, 1000)), 201, None, "");
    expect(
        settings_answer(create_settings(SettingsAt::Looked(SettingsLookup::Missing), &request, 1000)),
        500,
        DATABASE,
        "Inserted settings not found.",
    );
    expect(
        settings_answer(create_settings(SettingsAt::Looked(SettingsLookup::Failed), &request, 1000)),
        500,
        DATABASE,
        "Database error",
    );
}

#[test]
fn settings_are_fetched_by_id() {
    expect(get_settings(Lookup::Found, 7), 200, None, "");
    expect(get_settings(Lookup::Missing, 7), 404, NOT_FOUND, "No settings found for ID: 7");
    expect(get_settings(Lookup::Missing, -12), 404, NOT_FOUND, "No settings found for ID: -12");
    expect(
        get_settings(Lookup::Missing, i32::MIN),
        404,
        NOT_FOUND,
        "No settings found for ID: -2147483648",
    );
    expect(get_settings(Lookup::Failed, 7), 500, DATABASE, "Database error retrieving settings.");
    expect(not_found(305), 404, NOT_FOUND, "No settings found for ID: 305");
}

fn no_change() -> UpdateSettings {
    UpdateSettings { language: None, notifications_enabled: None, dark_mode: None, currency: None }
}

#[test]
fn settings_are_changed_where_they_are_there() {
    let change = UpdateSettings {
        language: Some("de".to_string()),
        notifications_enabled: None,
        dark_mode: Some(true),
        currency: None,
    };
    assert!(matches!(
        update_settings(SettingsAt::Start, 3, &change, 2000),
        SettingsStep::FindById(3)
    ));
    let found = SettingsAt::Looked(SettingsLookup::Found(settings_row()));
    match update_settings(found, 4, &change, 2000) {
        SettingsStep::Update(row) => {
            assert_eq!(row.id, 4);
            assert_eq!(row.user_id, 9);
            assert_eq!(row.language, "de");
            assert!(row.notifications_enabled);
            assert!(row.dark_mode);
            assert_eq!(row.currency, "USD");
            assert_eq!(row.created_at, 1000);
            assert_eq!(row.updated_at, 2000);
        }
        other => panic!("{:?}", other),
    }
    expect(
        settings_answer(update_settings(SettingsAt::Looked(SettingsLookup::Missing), 3, &change, 1)),
        404,
        NOT_FOUND,
        "No settings found for ID: 3",
    );
    expect(
        settings_answer(update_settings(SettingsAt::Looked(SettingsLookup::Failed), 3, &change, 1)),
        500,
        DATABASE,
        "Database error retrieving settings for update.",
    );
    expect(
        settings_answer(update_settings(SettingsAt::Wrote(Written::Done), 3, &no_change(), 1)),
        200,
        None,
        "",
    );
    expect(
        settings_answer(update_settings(SettingsAt::Wrote(Written::Failed), 3, &no_change(), 1)),
        500,
        DATABASE,
        "Database error updating settings.",
    );
}

#[test]
fn a_delete_that_removed_nothing_found_nothing() {
    expect(delete_settings(Deleted::Rows(1), 42), 200, None, "Deleted settings with ID: 42");
    expect(delete_settings(Deleted::Rows(2), 100), 200, None, "Deleted settings with ID: 100");
    expect(delete_settings(Deleted::Rows(0), 42), 404, NOT_FOUND, "No settings found for ID: 42");
    expect(delete_settings(Deleted::Failed, 42), 500, DATABASE, "Database error deleting settings.");
}

fn settings_row() -> Settings {
    new_settings().row(4, 1000)
}

#[test]
fn a_request_makes_its_row() {
    let row = settings_row();
    assert_eq!(row.id, 4);
    assert_eq!(row.user_id, 9);
    assert_eq!(row.language, "en");
    assert!(row.notifications_enabled);
    assert!(!row.dark_mode);
    assert_eq!(row.currency, "USD");
    assert_eq!(row.created_at, 1000);
    assert_eq!(row.updated_at, 1000);
}

#[test]
fn a_change_replaces_the_fields_it_holds() {
    let patch = UpdateSettings {
        language: Some("de".to_string()),
        notifications_enabled: None,
        dark_mode: Some(true),
        currency: None,
    };
    let row = patch.apply(settings_row(), 2000);
    assert_eq!(row.id, 4);
    assert_eq!(row.user_id, 9);
    assert_eq!(row.language, "de");
    assert!(row.notifications_enabled);
    assert!(row.dark_mode);
    assert_eq!(row.currency, "USD");
    assert_eq!(row.created_at, 1000);
    assert_eq!(row.updated_at, 2000);

    let patch = UpdateSettings {
        language: None,
        notifications_enabled: Some(false),
        dark_mode: None,
        currency: Some("EUR".to_string()),
    };
    let row = patch.apply(row, 3000);
    assert_eq!(row.language, "de");
    assert!(!row.notifications_enabled);
    assert!(row.dark_mode);
    assert_eq!(row.currency, "EUR");
    assert_eq!(row.updated_at, 3000);
}

#[test]
fn an_empty_change_leaves_the_fields() {
    let patch =
        UpdateSettings { language: None, notifications_enabled: None, dark_mode: None, currency: None };
    let row = patch.apply(settings_row(), 5000);
    assert_eq!(row.language, "en");
    assert!(row.notifications_enabled);
    assert!(!row.dark_mode);
    assert_eq!(row.currency, "USD");
    assert_eq!(row.created_at, 1000);
    assert_eq!(row.updated_at, 5000);
}

#[test]
fn tickets_are_listed_with_a_message_for_none() {
    expect(get_tickets(Fetched::Rows(0)), 200, None, "No support tickets found.");
    expect(get_tickets(Fetched::Rows(4)), 200, None, "Support tickets retrieved successfully.");
    expect(get_tickets(Fetched::Failed), 500, DATABASE, "Failed to fetch support tickets.");
}

fn ticket_input() -> TicketInput {
    TicketInput {
        user_id: 5,
        subject: "Lost item".to_string(),
        description: "Left a bag".to_string(),
        status: "open".to_string(),
        priority: "low".to_string(),
    }
}

#[test]
fn tickets_are_opened() {
    let input = ticket_input();
    match create_ticket(TicketAt::Start, &input, 100) {
        TicketStep::Insert(ticket) => {
            assert_eq!(ticket.id, 0);
            assert_eq!(ticket.user_id, 5);
            assert_eq!(ticket.subject, "Lost item");
            assert_eq!(ticket.created_at, 100);
            assert_eq!(ticket.updated_at, 100);
        }
        other => panic!("{:?}", other),
    }
    expect(
        ticket_answer(create_ticket(TicketAt::Wrote(Written::Done), &input, 100)),
        201,
        None,
        "Support ticket created successfully.",
    );
    expect(
        ticket_answer(create_ticket(TicketAt::Wrote(Written::Failed), &input, 100)),
        500,
        DATABASE,
        "Failed to create support ticket.",
    );
}

fn no_ticket_change() -> TicketUpdateInput {
    TicketUpdateInput { subject: None, description: None, status: None, priority: None }
}

#[test]
fn tickets_are_changed_where_they_are_there() {
    let change = TicketUpdateInput {
        subject: None,
        description: None,
        status: Some("closed".to_string()),
        priority: None,
    };
    assert!(matches!(update_ticket(TicketAt::Start, 11, &change, 200), TicketStep::FindById(11)));
    match update_ticket(TicketAt::Looked(TicketLookup::Found(ticket())), 11, &change, 200) {
        TicketStep::Update(changed) => {
            assert_eq!(changed.id, 11);
            assert_eq!(changed.subject, "Lost item");
            assert_eq!(changed.status, "closed");
            assert_eq!(changed.priority, "low");
            assert_eq!(changed.created_at, 100);
            assert_eq!(changed.updated_at, 200);
        }
        other => panic!("{:?}", other),
    }
    expect(
        ticket_answer(update_ticket(TicketAt::Looked(TicketLookup::Missing), 11, &change, 200)),
        404,
        NOT_FOUND,
        "Support ticket not found.",
    );
    expect(
        ticket_answer(update_ticket(TicketAt::Looked(TicketLookup::Failed), 11, &change, 200)),
        500,
        DATABASE,
        "Failed to find support ticket.",
    );
    expect(
        ticket_answer(update_ticket(TicketAt::Wrote(Written::Done), 11, &no_ticket_change(), 1)),
        200,
        None,
        "Support ticket updated successfully.",
    );
    expect(
        ticket_answer(update_ticket(TicketAt::Wrote(Written::Failed), 11, &no_ticket_change(), 1)),
        500,
        DATABASE,
        "Failed to update support ticket.",
    );
}

#[test]
fn tickets_are_deleted_where_they_are_there() {
    assert!(matches!(delete_ticket(TicketAt::Start, 8), TicketStep::FindById(8)));
    assert!(matches!(
        delete_ticket(TicketAt::Looked(TicketLookup::Found(ticket())), 8),
        TicketStep::Delete(8)
    ));
    expect(
        ticket_answer(delete_ticket(TicketAt::Looked(TicketLookup::Missing), 8)),
        404,
        NOT_FOUND,
        "Support ticket not found.",
    );
    expect(
        ticket_answer(delete_ticket(TicketAt::Looked(TicketLookup::Failed), 8)),
        500,
        DATABASE,
        "Failed to find support ticket.",
    );
    expect(
        ticket_answer(delete_ticket(TicketAt::Removed(Deleted::Rows(1)), 8)),
        200,
        None,
        "Support ticket deleted successfully.",
    );
    expect(
        ticket_answer(delete_ticket(TicketAt::Removed(Deleted::Failed), 8)),
        500,
        DATABASE,
        "Failed to delete support ticket.",
    );
}

fn ticket() -> Ticket {
    ticket_input().ticket(11, 100)
}

#[test]
fn a_request_opens_its_ticket() {
    let ticket = ticket();
    assert_eq!(ticket.id, 11);
    assert_eq!(ticket.user_id, 5);
    assert_eq!(ticket.subject, "Lost item");
    assert_eq!(ticket.description, "Left a bag");
    assert_eq!(ticket.status, "open");
    assert_eq!(ticket.priority, "low");
    assert_eq!(ticket.created_at, 100);
    assert_eq!(ticket.updated_at, 100);
}

#[test]
fn a_change_of_a_ticket_replaces_the_fields_it_holds_and_the_moment() {
    let change = TicketUpdateInput {
        subject: None,
        description: None,
        status: Some("closed".to_string()),
        priority: Some("high".to_string()),
    };
    let changed = change.apply(ticket(), 200);
    assert_eq!(changed.id, 11);
    assert_eq!(changed.user_id, 5);
    assert_eq!(changed.subject, "Lost item");
    assert_eq!(changed.description, "Left a bag");
    assert_eq!(changed.status, "closed");
    assert_eq!(changed.priority, "high");
    assert_eq!(changed.created_at, 100);
    assert_eq!(changed.updated_at, 200);

    let change = TicketUpdateInput {
        subject: Some("Found item".to_string()),
        description: Some("".to_string()),
        status: None,
        priority: None,
    };
    let changed = change.apply(changed, 300);
    assert_eq!(changed.subject, "Found item");
    assert_eq!(changed.description, "");
    assert_eq!(changed.status, "closed");
    assert_eq!(changed.priority, "high");
    assert_eq!(changed.updated_at, 300);
}

#[test]
fn without_an_address_there_is_no_attempt_to_connect() {
    match establish_connection_pool(Connecting::Configured(None)) {
        PoolStep::Failed(error) => {
            assert!(matches!(error, StartupError::MissingUrl));
            assert_eq!(error.message(), "DATABASE_URL is missing");
        }
        other => panic!("{:?}", other),
    }
    assert_eq!(DATABASE_URL, "DATABASE_URL");
}

#[test]
fn one_attempt_is_made_under_the_time_limit() {
    let url = "postgres://localhost/arrively".to_string();
    match establish_connection_pool(Connecting::Configured(Some(url))) {
        PoolStep::Connect { url, timeout_secs } => {
            assert_eq!(url, "postgres://localhost/arrively");
            assert_eq!(timeout_secs, 10);
            assert_eq!(timeout_secs, CONNECT_TIMEOUT_SECS);
        }
        other => panic!("{:?}", other),
    }
}

#[test]
fn the_outcome_of_the_attempt_stands() {
    assert!(matches!(
        establish_connection_pool(Connecting::Attempted(Attempt::Connected)),
        PoolStep::Ready
    ));
    match establish_connection_pool(Connecting::Attempted(Attempt::TimedOut)) {
        PoolStep::Failed(error) => {
            assert!(matches!(error, StartupError::TimedOut));
            assert_eq!(error.message(), "Database connection timed out");
        }
        other => panic!("{:?}", other),
    }
    let refused = Attempt::Refused("connection refused".to_string());
    match establish_connection_pool(Connecting::Attempted(refused)) {
        PoolStep::Failed(error) => assert_eq!(error.message(), "connection refused"),
        other => panic!("{:?}", other),
    }
    assert_eq!(StartupError::Migration.message(), "Migration failed");
}

#[test]
fn the_start_ends_at_the_first_failure() {
    assert_eq!(startup(Startup::Pool(true)), StartupStep::RunMigrations);
    assert_eq!(startup(Startup::Pool(false)), StartupStep::Abort(StartupFailure::Connection));
    assert_eq!(startup(Startup::Migrations(true)), StartupStep::Serve);
    assert_eq!(startup(Startup::Migrations(false)), StartupStep::Abort(StartupFailure::Migration));
    assert_eq!(StartupFailure::Connection.message(), "Database connection failed");
    assert_eq!(StartupFailure::Migration.message(), "Migration failed");
    assert_eq!(LISTEN_ADDRESS, "0.0.0.0:8081");
}
