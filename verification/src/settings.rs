//! Settings of a user.

use vstd::prelude::*;
use crate::http::{ErrorKind, Reply};
use crate::store::{Deleted, Lookup, Written};
use crate::text::{decimal_spec, with_number};

verus! {

pub const INSERT_FAILED: &'static str = "Database insert error";

pub const INSERTED_NOT_FOUND: &'static str = "Inserted settings not found.";

pub const FETCH_INSERTED_FAILED: &'static str = "Database error";

pub const NOT_FOUND_FOR_ID: &'static str = "No settings found for ID: ";

pub const RETRIEVE_FAILED: &'static str = "Database error retrieving settings.";

pub const RETRIEVE_FOR_UPDATE_FAILED: &'static str = "Database error retrieving settings for update.";

pub const UPDATE_FAILED: &'static str = "Database error updating settings.";

pub const DELETED_WITH_ID: &'static str = "Deleted settings with ID: ";

pub const DELETE_FAILED: &'static str = "Database error deleting settings.";

/// A request to create the settings of a user.
#[derive(Debug)]
pub struct CreateSettings {
    pub user_id: i32,
    pub language: String,
    pub notifications_enabled: bool,
    pub dark_mode: bool,
    pub currency: String,
}

/// A request to change settings: each field that is there replaces the
/// one of the row, each that is not leaves it.
#[derive(Debug)]
pub struct UpdateSettings {
    pub language: Option<String>,
    pub notifications_enabled: Option<bool>,
    pub dark_mode: Option<bool>,
    pub currency: Option<String>,
}

/// A row of settings. The two moments are seconds since the epoch.
#[derive(Debug)]
pub struct Settings {
    pub id: i32,
    pub user_id: i32,
    pub language: String,
    pub notifications_enabled: bool,
    pub dark_mode: bool,
    pub currency: String,
    pub created_at: i64,
    pub updated_at: i64,
}

/// The answer to a query for one row of settings.
#[derive(Debug)]
pub enum SettingsLookup {
    /// The row is there, and is this one.
    Found(Settings),
    /// No such row.
    Missing,
    /// The query failed.
    Failed,
}

/// The answer to the insert of a row of settings.
#[derive(Clone, Copy, Debug, PartialEq, Eq, Structural)]
pub enum Inserted {
    /// The row was inserted, under this id.
    Done(i32),
    /// The insert failed.
    Failed,
}

/// Where a handler of settings stands: what was asked last, with its answer.
#[derive(Debug)]
pub enum SettingsAt {
    /// Nothing was asked yet.
    Start,
    /// A row was to be inserted.
    Inserted(Inserted),
    /// A row was looked for by its id.
    Looked(SettingsLookup),
    /// A row was to be written in the place of the one with its id.
    Wrote(Written),
}

/// What a handler of settings does next.
#[derive(Debug)]
pub enum SettingsStep {
    /// Ask the database to insert this row, under an id of its choice
    /// (the id of the row here is 0).
    Insert(Settings),
    /// Ask the database for the row with this id.
    FindById(i32),
    /// Ask the database to write this row in the place of the one with
    /// its id.
    Update(Settings),
    /// Answer the client.
    Answer(Reply),
}

impl SettingsStep {
    /// The client is answered, with an error of `kind` and `message` as reason.
    pub open spec fn fails(&self, kind: ErrorKind, message: Seq<char>) -> bool {
        self matches SettingsStep::Answer(reply) && reply.is_failure(kind, message)
    }

    /// Whatever is answered has the status that fits it.
    pub open spec fn wf(&self) -> bool {
        self matches SettingsStep::Answer(reply) ==> reply.wf()
    }
}

impl CreateSettings {
    /// The row that this request makes under `id` at second `now`.
    pub open spec fn row_spec(&self, id: i32, now: i64) -> Settings {
        Settings {
            id,
            user_id: self.user_id,
            language: self.language,
            notifications_enabled: self.notifications_enabled,
            dark_mode: self.dark_mode,
            currency: self.currency,
            created_at: now,
            updated_at: now,
        }
    }

    /// The row that this request makes under `id` at second `now`.
    pub fn row(&self, id: i32, now: i64) -> (r: Settings)
        ensures
            r == self.row_spec(id, now),
    {
        Settings {
            id,
            user_id: self.user_id,
            language: self.language.clone(),
            notifications_enabled: self.notifications_enabled,
            dark_mode: self.dark_mode,
            currency: self.currency.clone(),
            created_at: now,
            updated_at: now,
        }
    }
}

impl UpdateSettings {
    /// What `row` becomes by this request at second `now`.
    pub open spec fn apply_spec(&self, row: Settings, now: i64) -> Settings {
        Settings {
            id: row.id,
            user_id: row.user_id,
            language: match self.language {
                Some(language) => language,
                None => row.language,
            },
            notifications_enabled: match self.notifications_enabled {
                Some(enabled) => enabled,
                None => row.notifications_enabled,
            },
            dark_mode: match self.dark_mode {
                Some(dark) => dark,
                None => row.dark_mode,
            },
            currency: match self.currency {
                Some(currency) => currency,
                None => row.currency,
            },
            created_at: row.created_at,
            updated_at: now,
        }
    }

    /// Changes `row` as this request asks, at second `now`: the fields
    /// that the request holds replace those of the row, the row keeps its
    /// id, its user and the moment it was made, and `now` is the moment of
    /// its last change.
    pub fn apply(&self, row: Settings, now: i64) -> (r: Settings)
        ensures
            r == self.apply_spec(row, now),
    {
        Settings {
            id: row.id,
            user_id: row.user_id,
            language: match &self.language {
                Some(language) => language.clone(),
                None => row.language,
            },
            notifications_enabled: match self.notifications_enabled {
                Some(enabled) => enabled,
                None => row.notifications_enabled,
            },
            dark_mode: match self.dark_mode {
                Some(dark) => dark,
                None => row.dark_mode,
            },
            currency: match &self.currency {
                Some(currency) => currency.clone(),
                None => row.currency,
            },
            created_at: row.created_at,
            updated_at: now,
        }
    }
}

/// A request that holds nothing changes nothing but the moment of the
/// last change, and a request applied twice changes what it changes once.
pub proof fn lemma_apply(patch: UpdateSettings, row: Settings, now: i64, later: i64)
    ensures
        patch.language is None && patch.notifications_enabled is None && patch.dark_mode is None
            && patch.currency is None ==> patch.apply_spec(row, now) == (Settings {
            updated_at: now,
            ..row
        }),
        patch.apply_spec(patch.apply_spec(row, now), later) == patch.apply_spec(row, later),
{
}

/// What creating the settings of `request` at second `now` does next:
/// the row of the request is inserted, the row under the id that the
/// insert gave is read back, and that row is answered. Whatever else is
/// reported at a stage counts as a failure of the query for the new row.
pub open spec fn create_settings_spec(
    at: SettingsAt,
    request: CreateSettings,
    now: i64,
    next: SettingsStep,
) -> bool {
    match at {
        SettingsAt::Start => next matches SettingsStep::Insert(row) && row == request.row_spec(
            0,
            now,
        ),
        SettingsAt::Inserted(Inserted::Done(id)) => next matches SettingsStep::FindById(asked)
            && asked == id,
        SettingsAt::Inserted(Inserted::Failed) => next.fails(
            ErrorKind::DatabaseError,
            INSERT_FAILED@,
        ),
        SettingsAt::Looked(SettingsLookup::Found(_)) => next matches SettingsStep::Answer(reply)
            && reply.is_created(Seq::<char>::empty()),
        SettingsAt::Looked(SettingsLookup::Missing) => next.fails(
            ErrorKind::DatabaseError,
            INSERTED_NOT_FOUND@,
        ),
        _ => next.fails(ErrorKind::DatabaseError, FETCH_INSERTED_FAILED@),
    }
}

/// What creating the settings of `request` at second `now` does next.
pub fn create_settings(at: SettingsAt, request: &CreateSettings, now: i64) -> (next: SettingsStep)
    ensures
        create_settings_spec(at, *request, now, next),
        next.wf(),
{
    match at {
        SettingsAt::Start => SettingsStep::Insert(request.row(0, now)),
        SettingsAt::Inserted(Inserted::Done(id)) => SettingsStep::FindById(id),
        SettingsAt::Inserted(Inserted::Failed) => SettingsStep::Answer(
            Reply::failure(ErrorKind::DatabaseError, INSERT_FAILED),
        ),
        SettingsAt::Looked(SettingsLookup::Found(_)) => SettingsStep::Answer(Reply::made()),
        SettingsAt::Looked(SettingsLookup::Missing) => SettingsStep::Answer(
            Reply::failure(ErrorKind::DatabaseError, INSERTED_NOT_FOUND),
        ),
        _ => SettingsStep::Answer(Reply::failure(ErrorKind::DatabaseError, FETCH_INSERTED_FAILED)),
    }
}

/// The answer that no settings have the id `id`.
pub fn not_found(id: i32) -> (r: Reply)
    ensures
        r.is_failure(ErrorKind::NotFoundError, NOT_FOUND_FOR_ID@ + decimal_spec(id as int)),
        r.wf(),
{
    let message = with_number(NOT_FOUND_FOR_ID, id);
    Reply::failure(ErrorKind::NotFoundError, message.as_str())
}

/// The answer to a request for the settings with the id `id`.
pub fn get_settings(found: Lookup, id: i32) -> (r: Reply)
    ensures
        match found {
            Lookup::Found => r.is_ok(Seq::<char>::empty()),
            Lookup::Missing => r.is_failure(
                ErrorKind::NotFoundError,
                NOT_FOUND_FOR_ID@ + decimal_spec(id as int),
            ),
            Lookup::Failed => r.is_failure(ErrorKind::DatabaseError, RETRIEVE_FAILED@),
        },
        r.wf(),
{
    match found {
        Lookup::Found => Reply::data(),
        Lookup::Missing => not_found(id),
        Lookup::Failed => Reply::failure(ErrorKind::DatabaseError, RETRIEVE_FAILED),
    }
}

/// What changing the settings with the id `id` as `change` asks, at
/// second `now`, does next: the row with that id is read, and only a row
/// that is there is changed; what is written in its place is that row
/// with the change applied. Whatever else is reported at a stage counts
/// as a failure of the write.
pub open spec fn update_settings_spec(
    at: SettingsAt,
    id: i32,
    change: UpdateSettings,
    now: i64,
    next: SettingsStep,
) -> bool {
    match at {
        SettingsAt::Start => next matches SettingsStep::FindById(asked) && asked == id,
        SettingsAt::Looked(SettingsLookup::Found(row)) => next matches SettingsStep::Update(
            changed,
        ) && changed == change.apply_spec(row, now),
        SettingsAt::Looked(SettingsLookup::Missing) => next.fails(
            ErrorKind::NotFoundError,
            NOT_FOUND_FOR_ID@ + decimal_spec(id as int),
        ),
        SettingsAt::Looked(SettingsLookup::Failed) => next.fails(
            ErrorKind::DatabaseError,
            RETRIEVE_FOR_UPDATE_FAILED@,
        ),
        SettingsAt::Wrote(Written::Done) => next matches SettingsStep::Answer(reply)
            && reply.is_ok(Seq::<char>::empty()),
        _ => next.fails(ErrorKind::DatabaseError, UPDATE_FAILED@),
    }
}

/// What changing the settings with the id `id` as `change` asks, at
/// second `now`, does next.
pub fn update_settings(at: SettingsAt, id: i32, change: &UpdateSettings, now: i64) -> (next:
    SettingsStep)
    ensures
        update_settings_spec(at, id, *change, now, next),
        next.wf(),
{
    match at {
        SettingsAt::Start => SettingsStep::FindById(id),
        SettingsAt::Looked(SettingsLookup::Found(row)) => SettingsStep::Update(
            change.apply(row, now),
        ),
        SettingsAt::Looked(SettingsLookup::Missing) => SettingsStep::Answer(not_found(id)),
        SettingsAt::Looked(SettingsLookup::Failed) => SettingsStep::Answer(
            Reply::failure(ErrorKind::DatabaseError, RETRIEVE_FOR_UPDATE_FAILED),
        ),
        SettingsAt::Wrote(Written::Done) => SettingsStep::Answer(Reply::data()),
        _ => SettingsStep::Answer(Reply::failure(ErrorKind::DatabaseError, UPDATE_FAILED)),
    }
}

/// The answer to a request to delete the settings with the id `id`: a
/// delete that removed no row found none.
pub fn delete_settings(deleted: Deleted, id: i32) -> (r: Reply)
    ensures
        match deleted {
            Deleted::Rows(count) => if count > 0 {
                r.is_ok(DELETED_WITH_ID@ + decimal_spec(id as int))
            } else {
                r.is_failure(ErrorKind::NotFoundError, NOT_FOUND_FOR_ID@ + decimal_spec(id as int))
            },
            Deleted::Failed => r.is_failure(ErrorKind::DatabaseError, DELETE_FAILED@),
        },
        r.wf(),
{
    match deleted {
        Deleted::Rows(count) => {
            if count > 0 {
                let message = with_number(DELETED_WITH_ID, id);
                Reply::ok(message.as_str())
            } else {
                not_found(id)
            }
        },
        Deleted::Failed => Reply::failure(ErrorKind::DatabaseError, DELETE_FAILED),
    }
}

} // verus!
