//! Verified core of a multi-room chat service.
//!
//! Clients authenticate, join a numbered room, exchange text messages and
//! receive presence and roster updates.  This crate holds the parts of the
//! server and client that decide things: command routing, session and room
//! bookkeeping, and the fanout rules that choose who receives which event.
//! Transport, wire encoding and terminal rendering live outside the crate.

#![verifier::loop_isolation(false)]

pub mod chat_store;
pub mod command;
pub mod conn_manager;
pub mod config;
pub mod consts;
pub mod controller;
pub mod errors;
pub mod ext;
pub mod message_store;
pub mod model;
pub mod push;
pub mod quic;
pub mod seqtools;
pub mod server;
pub mod service;
pub mod session_store;
pub mod sorting;
pub mod strutil;
pub mod text;
pub mod view_model;
