//! What a synchronisation decides: how comics and libraries are matched, how
//! progress is reconciled, what is written, and in what order the steps of a
//! run follow each other.

pub mod convergence;
pub mod discovery;
pub mod engine;
pub mod matching;
pub mod messages;
pub mod model;
pub mod paths;
pub mod reconcile;
pub mod run;
pub mod run_laws;
pub mod single;
pub mod single_laws;
pub mod step_laws;
pub mod ydb;

pub use discovery::{match_stump_library, needs_discovery, resolve_library_configs};
pub use engine::SyncEngine;
pub use matching::{match_comics, MappingRow};
pub use messages::{Action, Reply};
pub use paths::{normalize_fs_path, normalize_path, relative_under};
pub use reconcile::{compute_bidirectional_delta, compute_delta, reconcile_at};
pub use run::Run;
pub use single::SinglePush;
pub use ydb::{plan_write, write_yac_progress, YdbRow};
