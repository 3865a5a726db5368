//! Verified control-plane core of a batch speech/NLP job server: the job
//! lifecycle model and each file's lifecycle inside it, host-memory
//! admission, the released command catalog, the worker capability gate, the
//! decisions of a hosted job run and of each dispatch path (batched text,
//! forced alignment, transcription, benchmark, compare), the Temporal
//! workflow loop, and the routing and naming rules around them.

pub mod text;
pub mod ordered;
pub mod error;
pub mod commands;
pub mod progress;
pub mod job;
pub mod lifecycle;
pub mod memory_reading;
pub mod host_memory;
pub mod capabilities;
pub mod paths;
pub mod plan;
pub mod pipeline;
pub mod submission;
pub mod runner;
pub mod hosted;
pub mod attempts;
pub mod batching;
pub mod batch_infer;
pub mod fa;
pub mod compare;
pub mod transcription;
pub mod revai;
pub mod temporal;
pub mod queue;
pub mod routes;
pub mod bug_reports;
pub mod runtime;
