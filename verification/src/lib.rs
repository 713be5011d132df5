//! Verified core of the CodeGraph command line tool.
pub mod agent;
pub mod circular;
pub mod clock;
pub mod config;
pub mod error;
pub mod estimate;
pub mod indexing;
pub mod json;
pub mod launch;
pub mod mapped_file;
pub mod mapping;
pub mod memory;
pub mod process;
pub mod registry;
pub mod report;
pub mod serve;
pub mod shutdown;
pub mod status;
pub mod text;
pub mod vector;
pub mod watch;
pub mod zero_copy;
