//! A small library around the external `fio` benchmarking program: named
//! preset I/O patterns, configuration rendering, command-line argument
//! construction, the (job, block size, queue depth) invocation matrix, and
//! parsing and formatting of the JSON summary that `fio` prints.
pub mod config;
pub mod lists;
pub mod matrix;
pub mod numbers;
pub mod registry;
pub mod report;
pub mod runner;

pub use config::FioConfig;
pub use numbers::u64_to_dec;
pub use registry::find_fio_pattern;
