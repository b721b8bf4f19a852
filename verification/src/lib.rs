//! Backend of a native extension module: a process-wide store for one binary
//! buffer, replaced wholesale by each load and handed back to the caller as a
//! faithful copy, together with a query for the number of logical processing
//! units available to the process.

pub mod cpus;
pub mod store;
