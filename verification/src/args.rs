//! Options of the two commands.

use crate::remote::{name_view, names_view};
use vstd::prelude::*;

verus! {

/// Options of the upload command.
#[derive(Clone, Debug, PartialEq, Eq)]
pub struct UploadArgs {
    /// Revision expressions that select the commits to send for review. A
    /// commit without a tracking identifier gets one before it is sent.
    pub revisions: Vec<String>,
    /// Branch on the remote where the changes are meant to land.
    pub remote_branch: Option<String>,
    /// Name of the remote to push to.
    pub remote: Option<String>,
    /// When set, nothing is pushed.
    pub dry_run: bool,
}

/// [`UploadArgs`] as a mathematical value.
pub struct UploadArgsView {
    pub revisions: Seq<Seq<char>>,
    pub remote_branch: Option<Seq<char>>,
    pub remote: Option<Seq<char>>,
    pub dry_run: bool,
}

impl View for UploadArgs {
    type V = UploadArgsView;

    open spec fn view(&self) -> UploadArgsView {
        UploadArgsView {
            revisions: names_view(self.revisions@),
            remote_branch: name_view(self.remote_branch),
            remote: name_view(self.remote),
            dry_run: self.dry_run,
        }
    }
}

/// Options of the command that reviews configuration kept under version
/// control.
#[derive(Clone, Debug, PartialEq, Eq)]
pub struct ConfigReviewManagedArgs {
    /// Accept the configuration from the repository without reviewing it.
    pub trust: bool,
}

/// A copy of an optional name.
pub fn copy_name(name: &Option<String>) -> (copy: Option<String>)
    ensures
        name_view(copy) == name_view(*name),
{
    match name {
        Some(n) => Some(n.clone()),
        None => None,
    }
}

} // verus!
