//! Application services for the Work bounded context: the decisions that the command,
//! query, consumer and job services take, verified against their contracts.

pub mod contracts;
pub mod errors;
pub mod ports;
pub mod unit_of_work;
pub mod idempotency;
pub mod transaction;
pub mod outbox;
pub mod publication;
pub mod text;
pub mod paging;
pub mod references;
pub mod ops;
pub mod results;
pub mod command;
pub mod records;
pub mod promote;
pub mod project;
pub mod member;
pub mod workitem;
pub mod dependency;
pub mod iteration;
pub mod query;
pub mod consumer;
pub mod jobs;
pub mod digest;
pub mod api;
pub mod laws;
pub mod body;
pub mod steps;
pub mod inbound;
