//! Planning and text logic of the Gargamel evidence acquisition tool.
//!
//! The library computes the command lines, file names and remote paths that
//! the acquisition steps need, and parses the configuration files they read.
//! Starting processes and touching the file system is left to its callers.

pub mod text;
pub mod command_utils;
pub mod winpath;
pub mod remote;
pub mod utils;
pub mod kape_handler;
pub mod remote_computer;
pub mod process_runner;
pub mod embedded_search_list;
pub mod file_acquirer;
pub mod arg_parser;
pub mod methods;
pub mod command_runner;
pub mod large_evidence_acquirer;
pub mod events_acquirer;
pub mod registry_acquirer;
pub mod evidence_acquirer;
pub mod memory_acquirer;
pub mod svi_data_acquirer;
pub mod edb_acquirer;
pub mod path_retriever;
