//! Support tickets.

use vstd::prelude::*;
use crate::http::{ErrorKind, Reply};
use crate::store::{Deleted, Fetched, Written};

verus! {

pub const NO_TICKETS: &'static str = "No support tickets found.";

pub const TICKETS_RETRIEVED: &'static str = "Support tickets retrieved successfully.";

pub const FETCH_TICKETS_FAILED: &'static str = "Failed to fetch support tickets.";

pub const TICKET_CREATED: &'static str = "Support ticket created successfully.";

pub const CREATE_TICKET_FAILED: &'static str = "Failed to create support ticket.";

pub const TICKET_UPDATED: &'static str = "Support ticket updated successfully.";

pub const UPDATE_TICKET_FAILED: &'static str = "Failed to update support ticket.";

pub const TICKET_NOT_FOUND: &'static str = "Support ticket not found.";

pub const FIND_TICKET_FAILED: &'static str = "Failed to find support ticket.";

pub const TICKET_DELETED: &'static str = "Support ticket deleted successfully.";

pub const DELETE_TICKET_FAILED: &'static str = "Failed to delete support ticket.";

/// A request to open a ticket.
#[derive(Debug)]
pub struct TicketInput {
    pub user_id: i32,
    pub subject: String,
    pub description: String,
    pub status: String,
    pub priority: String,
}

/// A request to change a ticket: each field that is there replaces the
/// one of the ticket, each that is not leaves it.
#[derive(Debug)]
pub struct TicketUpdateInput {
    pub subject: Option<String>,
    pub description: Option<String>,
    pub status: Option<String>,
    pub priority: Option<String>,
}

/// A ticket. The two moments are seconds since the epoch.
#[derive(Debug)]
pub struct Ticket {
    pub id: i32,
    pub user_id: i32,
    pub subject: String,
    pub description: String,
    pub status: String,
    pub priority: String,
    pub created_at: i64,
    pub updated_at: i64,
}

/// The answer to a query for one ticket.
#[derive(Debug)]
pub enum TicketLookup {
    /// The ticket is there, and is this one.
    Found(Ticket),
    /// No such ticket.
    Missing,
    /// The query failed.
    Failed,
}

/// Where a handler of tickets stands: what was asked last, with its answer.
#[derive(Debug)]
pub enum TicketAt {
    /// Nothing was asked yet.
    Start,
    /// A ticket was looked for by its id.
    Looked(TicketLookup),
    /// A ticket was to be inserted, or written in the place of the one
    /// with its id.
    Wrote(Written),
    /// A ticket was to be deleted.
    Removed(Deleted),
}

/// What a handler of tickets does next.
#[derive(Debug)]
pub enum TicketStep {
    /// Ask the database to insert this ticket, under an id of its choice
    /// (the id of the ticket here is 0).
    Insert(Ticket),
    /// Ask the database for the ticket with this id.
    FindById(i32),
    /// Ask the database to write this ticket in the place of the one with
    /// its id.
    Update(Ticket),
    /// Ask the database to delete the ticket with this id.
    Delete(i32),
    /// Answer the client.
    Answer(Reply),
}

impl TicketStep {
    /// The client is answered, with an error of `kind` and `message` as reason.
    pub open spec fn fails(&self, kind: ErrorKind, message: Seq<char>) -> bool {
        self matches TicketStep::Answer(reply) && reply.is_failure(kind, message)
    }

    /// The client is answered 200 with `message`.
    pub open spec fn answers_ok(&self, message: Seq<char>) -> bool {
        self matches TicketStep::Answer(reply) && reply.is_ok(message)
    }

    /// Whatever is answered has the status that fits it.
    pub open spec fn wf(&self) -> bool {
        self matches TicketStep::Answer(reply) ==> reply.wf()
    }
}

/// The text that a change leaves in a field.
pub open spec fn replaced(new: Option<String>, old: String) -> String {
    match new {
        Some(text) => text,
        None => old,
    }
}

fn replace(new: &Option<String>, old: String) -> (r: String)
    ensures
        r == replaced(*new, old),
{
    match new {
        Some(text) => text.clone(),
        None => old,
    }
}

impl TicketInput {
    /// The ticket that this request opens under `id` at second `now`.
    pub open spec fn ticket_spec(&self, id: i32, now: i64) -> Ticket {
        Ticket {
            id,
            user_id: self.user_id,
            subject: self.subject,
            description: self.description,
            status: self.status,
            priority: self.priority,
            created_at: now,
            updated_at: now,
        }
    }

    /// The ticket that this request opens under `id` at second `now`.
    pub fn ticket(&self, id: i32, now: i64) -> (t: Ticket)
        ensures
            t == self.ticket_spec(id, now),
    {
        Ticket {
            id,
            user_id: self.user_id,
            subject: self.subject.clone(),
            description: self.description.clone(),
            status: self.status.clone(),
            priority: self.priority.clone(),
            created_at: now,
            updated_at: now,
        }
    }
}

impl TicketUpdateInput {
    /// What `ticket` becomes by this request at second `now`.
    pub open spec fn apply_spec(&self, ticket: Ticket, now: i64) -> Ticket {
        Ticket {
            id: ticket.id,
            user_id: ticket.user_id,
            subject: replaced(self.subject, ticket.subject),
            description: replaced(self.description, ticket.description),
            status: replaced(self.status, ticket.status),
            priority: replaced(self.priority, ticket.priority),
            created_at: ticket.created_at,
            updated_at: now,
        }
    }

    /// Changes `ticket` as this request asks, at second `now`: the fields
    /// that the request holds replace those of the ticket, the ticket keeps
    /// its id, its user and the moment it was opened, and `now` is the
    /// moment of its last change.
    pub fn apply(&self, ticket: Ticket, now: i64) -> (t: Ticket)
        ensures
            t == self.apply_spec(ticket, now),
    {
        Ticket {
            id: ticket.id,
            user_id: ticket.user_id,
            subject: replace(&self.subject, ticket.subject),
            description: replace(&self.description, ticket.description),
            status: replace(&self.status, ticket.status),
            priority: replace(&self.priority, ticket.priority),
            created_at: ticket.created_at,
            updated_at: now,
        }
    }
}

/// The answer to a request for all tickets.
pub fn get_tickets(fetched: Fetched) -> (r: Reply)
    ensures
        match fetched {
            Fetched::Rows(count) => if count == 0 {
                r.is_ok(NO_TICKETS@)
            } else {
                r.is_ok(TICKETS_RETRIEVED@)
            },
            Fetched::Failed => r.is_failure(ErrorKind::DatabaseError, FETCH_TICKETS_FAILED@),
        },
        r.wf(),
{
    match fetched {
        Fetched::Rows(count) => {
            if count == 0 {
                Reply::ok(NO_TICKETS)
            } else {
                Reply::ok(TICKETS_RETRIEVED)
            }
        },
        Fetched::Failed => Reply::failure(ErrorKind::DatabaseError, FETCH_TICKETS_FAILED),
    }
}

/// What opening the ticket of `input` at second `now` does next: the
/// ticket of the request is inserted, and the outcome of the insert is
/// answered. Whatever else is reported counts as a failure of the insert.
pub open spec fn create_ticket_spec(at: TicketAt, input: TicketInput, now: i64, next: TicketStep) -> bool {
    match at {
        TicketAt::Start => next matches TicketStep::Insert(ticket) && ticket == input.ticket_spec(
            0,
            now,
        ),
        TicketAt::Wrote(Written::Done) => next matches TicketStep::Answer(reply)
            && reply.is_created(TICKET_CREATED@),
        _ => next.fails(ErrorKind::DatabaseError, CREATE_TICKET_FAILED@),
    }
}

/// What opening the ticket of `input` at second `now` does next.
pub fn create_ticket(at: TicketAt, input: &TicketInput, now: i64) -> (next: TicketStep)
    ensures
        create_ticket_spec(at, *input, now, next),
        next.wf(),
{
    match at {
        TicketAt::Start => TicketStep::Insert(input.ticket(0, now)),
        TicketAt::Wrote(Written::Done) => TicketStep::Answer(Reply::created(TICKET_CREATED)),
        _ => TicketStep::Answer(Reply::failure(ErrorKind::DatabaseError, CREATE_TICKET_FAILED)),
    }
}

/// What changing the ticket with the id `id` as `change` asks, at second
/// `now`, does next: the ticket with that id is read, and only a ticket
/// that is there is changed; what is written in its place is that ticket
/// with the change applied. Whatever else is reported at a stage counts
/// as a failure of the write.
pub open spec fn update_ticket_spec(
    at: TicketAt,
    id: i32,
    change: TicketUpdateInput,
    now: i64,
    next: TicketStep,
) -> bool {
    match at {
        TicketAt::Start => next matches TicketStep::FindById(asked) && asked == id,
        TicketAt::Looked(TicketLookup::Found(ticket)) => next matches TicketStep::Update(changed)
            && changed == change.apply_spec(ticket, now),
        TicketAt::Looked(TicketLookup::Missing) => next.fails(
            ErrorKind::NotFoundError,
            TICKET_NOT_FOUND@,
        ),
        TicketAt::Looked(TicketLookup::Failed) => next.fails(
            ErrorKind::DatabaseError,
            FIND_TICKET_FAILED@,
        ),
        TicketAt::Wrote(Written::Done) => next.answers_ok(TICKET_UPDATED@),
        _ => next.fails(ErrorKind::DatabaseError, UPDATE_TICKET_FAILED@),
    }
}

/// What changing the ticket with the id `id` as `change` asks, at second
/// `now`, does next.
pub fn update_ticket(at: TicketAt, id: i32, change: &TicketUpdateInput, now: i64) -> (next:
    TicketStep)
    ensures
        update_ticket_spec(at, id, *change, now, next),
        next.wf(),
{
    match at {
        TicketAt::Start => TicketStep::FindById(id),
        TicketAt::Looked(TicketLookup::Found(ticket)) => TicketStep::Update(
            change.apply(ticket, now),
        ),
        TicketAt::Looked(TicketLookup::Missing) => TicketStep::Answer(
            Reply::failure(ErrorKind::NotFoundError, TICKET_NOT_FOUND),
        ),
        TicketAt::Looked(TicketLookup::Failed) => TicketStep::Answer(
            Reply::failure(ErrorKind::DatabaseError, FIND_TICKET_FAILED),
        ),
        TicketAt::Wrote(Written::Done) => TicketStep::Answer(Reply::ok(TICKET_UPDATED)),
        _ => TicketStep::Answer(Reply::failure(ErrorKind::DatabaseError, UPDATE_TICKET_FAILED)),
    }
}

/// What deleting the ticket with the id `id` does next: the ticket with
/// that id is read, and only a ticket that is there is deleted, by that
/// id. Whatever else is reported at a stage counts as a failure of the
/// delete.
pub open spec fn delete_ticket_spec(at: TicketAt, id: i32, next: TicketStep) -> bool {
    match at {
        TicketAt::Start => next matches TicketStep::FindById(asked) && asked == id,
        TicketAt::Looked(TicketLookup::Found(_)) => next matches TicketStep::Delete(asked)
            && asked == id,
        TicketAt::Looked(TicketLookup::Missing) => next.fails(
            ErrorKind::NotFoundError,
            TICKET_NOT_FOUND@,
        ),
        TicketAt::Looked(TicketLookup::Failed) => next.fails(
            ErrorKind::DatabaseError,
            FIND_TICKET_FAILED@,
        ),
        TicketAt::Removed(Deleted::Rows(_)) => next.answers_ok(TICKET_DELETED@),
        _ => next.fails(ErrorKind::DatabaseError, DELETE_TICKET_FAILED@),
    }
}

/// What deleting the ticket with the id `id` does next.
pub fn delete_ticket(at: TicketAt, id: i32) -> (next: TicketStep)
    ensures
        delete_ticket_spec(at, id, next),
        next.wf(),
{
    match at {
        TicketAt::Start => TicketStep::FindById(id),
        TicketAt::Looked(TicketLookup::Found(_)) => TicketStep::Delete(id),
        TicketAt::Looked(TicketLookup::Missing) => TicketStep::Answer(
            Reply::failure(ErrorKind::NotFoundError, TICKET_NOT_FOUND),
        ),
        TicketAt::Looked(TicketLookup::Failed) => TicketStep::Answer(
            Reply::failure(ErrorKind::DatabaseError, FIND_TICKET_FAILED),
        ),
        TicketAt::Removed(Deleted::Rows(_)) => TicketStep::Answer(Reply::ok(TICKET_DELETED)),
        _ => TicketStep::Answer(Reply::failure(ErrorKind::DatabaseError, DELETE_TICKET_FAILED)),
    }
}

} // verus!
