//! Wicket: a tool executor and a screenshot store, as verified decisions.

pub mod action;
pub mod adapter;
pub mod call_laws;
pub mod capacity;
mod clock;
pub mod command_laws;
pub mod encoding;
pub mod error;
pub mod evidence;
pub mod facts;
pub mod identity;
pub mod job_laws;
pub mod jobs;
pub mod journal;
pub mod json;
pub mod json_laws;
pub mod laws;
pub mod location;
pub mod message;
pub mod model;
pub mod observation;
pub mod opening;
pub mod opening_laws;
pub mod patch;
pub mod path;
pub mod path_laws;
pub mod pdf;
pub mod picture;
pub mod png;
pub mod png_laws;
pub mod policy;
pub mod process;
pub mod protocol;
pub mod publication_laws;
pub mod receipts;
pub mod restart;
pub mod rule_laws;
pub mod rules;
pub mod sandbox;
pub mod sandbox_laws;
pub mod show_laws;
pub mod soundness;
pub mod store;
pub mod table;
pub mod text;
pub mod text_laws;
pub mod tool;
pub mod tool_laws;
pub mod transfer_laws;
pub mod uncertainty;
pub mod wire;
pub mod wire_laws;
