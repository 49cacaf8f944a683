//! The session core of a version-control client: which operation a session
//! acts on, whether its working copy has fallen behind, how a transaction is
//! committed, and which conflicts a commit introduced or resolved.

pub mod object_id;
pub mod op_log;
pub mod staleness;
pub mod text;
pub mod op_heads;
pub mod command_error;
pub mod commit;
pub mod workspace;
pub mod snapshot;
pub mod transaction;
pub mod conflicts;
pub mod args;
pub mod revisions;
pub mod remote_branch;
pub mod cli;
pub mod aliases;
pub mod conversions;
pub mod branches;
pub mod config_edit;
pub mod git_import;
