//! Snapshot regression testing for a model parser: test discovery, per-directory
//! configuration, a per-case harness state machine, canonical JSON comparison
//! with a line-level diff, and a run summary.

pub mod compare;
pub mod config;
pub mod discover;
pub mod harness;
pub mod report;
pub mod snapshot;
pub mod text;

pub use compare::{compare_canonical, compare_documents, CompareError, Comparison, LineDiff};
pub use config::{resolve_accept, resolve_native_parser, Args, ConfigFile};
pub use discover::{discover_inputs, find_essence_files_recursive, is_input_file_name, DirEntry, DiscoveryError};
pub use harness::{advance, fault_message, CaseEvent, CaseState, Failure, Outcome, OutcomeKind, ParseResult};
pub use report::Report;
pub use snapshot::{
    config_path, expected_snapshot_path, generated_snapshot_path, promotion_paths, snapshot_path,
};
