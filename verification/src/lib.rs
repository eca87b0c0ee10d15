//! Local Justfile cache resolution: locating the platform cache directory,
//! describing cached Justfiles and repositories, and resolving repository
//! names to cached Justfile paths.
//!
//! The library never touches the disk itself. Callers observe the filesystem,
//! record what they saw in an [`FsSnapshot`], and every resolution function is
//! verified against that snapshot.

pub mod cache;
pub mod fs_model;
pub mod init_cmd;
pub mod justfile;
pub mod list_cmd;
pub mod output;
pub mod repository;
pub mod sync_cmd;
pub mod text;
pub mod use_cmd;

pub use cache::{
    ensure_cache_dir, find_justfile, get_cache_dir, is_first_use, justfile_cache_path,
    justfile_template, list_justfiles, CacheError,
};
pub use fs_model::FsSnapshot;
pub use init_cmd::{handle_init_command, InitArgs};
pub use justfile::{find_justfiles_in_dir, Justfile};
pub use list_cmd::{handle_list_command, ListArgs};
pub use output::CommandOutput;
pub use repository::{detect_current_repo, parse_repo_name, Repository};
pub use sync_cmd::{handle_sync_command, SyncArgs};
pub use text::join_path;
pub use use_cmd::{handle_use_command, use_outcome, UseArgs};
