//! Safe model of a destination/option/job print-spooler interface.
//!
//! The library holds the logic of talking to a handle-based spooler: the option
//! encodings the spooler expects, the negotiation of options against what a
//! destination supports, the destination registry, the printer facade and the
//! job-submission state machine. The native calls themselves are made by the
//! caller, which hands their outcomes back as plain values.

pub mod cups;
pub mod dest;
pub mod error;
pub mod job;
pub mod listing;
pub mod option_set;
pub mod options;
pub mod pages;
pub mod printer;
pub mod snapshot;
pub mod text;

pub use cups::CupsOption;
pub use dest::{CupsDestination, CupsDestinations};
pub use error::PrintError;
pub use job::{CupsJob, JobState};
pub use listing::get_sorted_printers;
pub use option_set::{add_options, requested_options, CupsOptions, OptionRequest};
pub use options::{PrintOption, PrintOptions};
pub use printer::Printer;
pub use snapshot::PrinterSnapshot;
