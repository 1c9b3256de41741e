//! A TCP connect scanner's engine: the targets it enumerates, the decisions of
//! its workers and the lines it reports, each with a machine-checked contract.

pub mod enumerate;
pub mod network;
pub mod plan;
pub mod ports;
pub mod report;
pub mod run;
pub mod scan;
pub mod target;
pub mod worker;

pub use ports::{service_name, PORT_MAX, SERVICES};
pub use scan::scan_range;
