//! Verified core of the MCP server extensions: the Odoo tool server, the
//! systemprompt approval tools, and the shared approval step and audit helpers.
//!
//! Everything here is pure shaping and deciding — query domains, text
//! clean-up, limits, tables, payloads and the approval outcome — with the
//! network, database and protocol plumbing left to the callers.

pub mod fmt;
pub mod strings;
pub mod text;

pub mod audit;
pub mod approval;
pub mod approvals;

pub mod inputs;
pub mod outcome;
pub mod domain;
pub mod payload;
pub mod wire;
pub mod rows;
pub mod table;
pub mod tables;
pub mod catalog;
pub mod handlers;
pub mod dispatch;

pub mod crm;
pub mod tags;
pub mod partner;
pub mod notes;
pub mod attachments;
pub mod activity;
pub mod calendar;
pub mod tasks;
pub mod channels;
pub mod sales;
pub mod discovery;
pub mod report;
pub mod overview;

pub mod laws;
