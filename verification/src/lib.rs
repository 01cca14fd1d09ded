//! Log ingestion: the messages clients send, the rows stored from them, the
//! configuration of the service, and the decisions of its worker, its batch
//! inserts and its client library.

pub mod batch_insert;
pub mod config;
pub mod flush;
pub mod grpc;
pub mod log_row;
pub mod sdk;
pub mod services;
pub mod worker;
