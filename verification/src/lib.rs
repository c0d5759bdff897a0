//! Decision logic of a load generator for TCP and WebSocket servers.

pub mod command;
pub mod counter_laws;
pub mod course_laws;
pub mod csv_export;
pub mod csv_laws;
pub mod error;
pub mod exchange_laws;
pub mod input_laws;
pub mod latency;
pub mod message;
pub mod notice;
pub mod output_laws;
pub mod printer;
pub mod reader;
pub mod report;
pub mod runner;
pub mod sent_times;
pub mod stats;
pub mod text;
pub mod text_laws;
pub mod time;
pub mod utils;
pub mod worker;
pub mod worker_laws;
