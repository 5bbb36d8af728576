//! Machine management for small virtual machines: the rules that decide what a
//! create, start, stop, fork, update, exec, run or monitor request does, and
//! the parsing and rendering that the HTTP API and the command line share.
//!
//! Every function carries a contract over mathematical models of its data.
//! Code that talks to the hypervisor, the guest agent, the database or the
//! network lives outside this crate: it performs the action that a decision
//! function asks for and hands the outcome back.

pub mod model;
pub mod text;
pub mod error;
pub mod requests;
pub mod secrets;
pub mod types;
pub mod env;
pub mod update;
pub mod records;
pub mod update_flow;
pub mod bytes;
pub mod lifecycle;
pub mod create;
pub mod fork;
pub mod guest;
pub mod monitor;
pub mod session;
pub mod json;
pub mod operation;
pub mod sse;
pub mod api;
pub mod interactive;
pub mod logs;
pub mod drain;
pub mod http_create;
pub mod service;
pub mod web;
pub mod commands;
pub mod flags;
pub mod create_cmd;
pub mod run_cmd;
pub mod listing;
pub mod cli;
pub mod resize;
