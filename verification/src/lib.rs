//! Preparing a selection of commits for review on a Gerrit server: every
//! commit gets a stable `Change-Id` trailer, the chain is rewritten
//! consistently, and each head is pushed to `refs/for/<branch>`.

pub mod args;
pub mod commit;
pub mod error;
pub mod laws;
pub mod push;
pub mod remote;
pub mod review;
pub mod rewrite_map;
pub mod session;
pub mod stamp;
pub mod text;
pub mod trailer;

pub use args::{ConfigReviewManagedArgs, UploadArgs};
