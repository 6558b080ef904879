//! Structured, chained error reports with a separately kept message trace.
//!
//! A report pairs a structured detail with a trace: the detail says what went
//! wrong, the trace records in order the messages of every error that led to it.
pub mod tracer;
pub mod source;
pub mod report;
pub mod decimal;
pub mod families;
pub mod family_spec;
pub mod lineage;

pub use report::ErrorReport;
pub use source::{DisplayError, ErrorSource};
pub use tracer::{ErrorMessage, ErrorMessageTracer, NoTracer, StringTracer};
