//! The logic of a screen time monitor.
//!
//! Screen time events arrive as NATS messages, are kept per host and user, and are passed on
//! to the clients that are connected over WebSockets; requests may be authenticated by
//! Cloudflare Access. The modules hold the data and the decisions:
//!
//! - [`config`]: the settings and where they come from;
//! - [`event`]: screen time events and the messages that carry them;
//! - [`state`]: the events that are kept;
//! - [`subscriber`]: what is done with each message, and the course of the subscription;
//! - [`websocket`]: the course of a client's connection;
//! - [`auth`]: the treatment of a request by Cloudflare Access, and [`access_laws`]: what holds
//!   of it as a whole;
//! - [`call_laws`]: what every call of these operations gives;
//! - [`text`], [`json`], [`headers`], [`jwt`]: what these are made from, and the calls into
//!   other crates.
//!
//! Everything that waits (the NATS connection, the sockets, the HTTP requests) is left to the
//! caller, who performs the actions that these modules decide on and tells them what happened.
pub mod access_laws;
pub mod auth;
pub mod call_laws;
pub mod config;
pub mod event;
pub mod headers;
pub mod json;
pub mod jwt;
pub mod state;
pub mod subscriber;
pub mod text;
pub mod websocket;
