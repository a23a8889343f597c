//! The rules of the Arrively ride-hailing backend, verified.
//!
//! The service registers users, drivers, vehicles and rides, keeps
//! settings and support tickets, and guards some of its routes with signed
//! tokens. This library holds what the service decides: which texts are
//! e-mail addresses and phone numbers, how passwords are kept, which tokens
//! are issued and accepted, and what each handler asks of the database and
//! answers to its client. It talks to no database and to no network: the
//! program around it carries questions and answers.
//!
//! - [`validation`], [`charclass`]: the formats of e-mail address and phone number.
//! - [`password`]: salted digests of passwords.
//! - [`auth`]: access tokens and refresh tokens.
//! - [`http`]: statuses, kinds of error, answers.
//! - [`store`]: the answers of the database that handlers decide by.
//! - [`users`], [`drivers`], [`vehicles`], [`rides`], [`cities`],
//!   [`settings`], [`tickets`]: the handlers of each resource.
//! - [`db`]: the start of the service.
//! - [`text`]: characters of strings, numbers in decimal.

pub mod auth;
pub mod charclass;
pub mod cities;
pub mod db;
pub mod drivers;
pub mod http;
pub mod password;
pub mod rides;
pub mod settings;
pub mod store;
pub mod text;
pub mod tickets;
pub mod users;
pub mod validation;
pub mod vehicles;
