//! Walle-Q: the decision logic of a QQ implementation of the OneBot protocol.
//!
//! The library holds what the bot computes: message identifiers and their
//! decoding, the mapping of QQ events and message elements to OneBot events and
//! segments, the bookkeeping of the groups the bot owns or administers, the
//! planning of outgoing messages, fragmented file uploads, login steps,
//! configuration merging and error codes.  Network, disk and terminal work is
//! left to the program around it.
pub mod strutil;
pub mod decimal;
pub mod resp;
pub mod message_id;
pub mod hexcode;
pub mod segment;
pub mod model;
pub mod infos;
pub mod event;
pub mod qevent;
pub mod send;
pub mod multi;
pub mod fragment;
pub mod files;
pub mod login;
pub mod qrcode;
pub mod database;
pub mod config;
pub mod extra;
pub mod command;
pub mod action;
