//! Pushing one head: the ref to update, the line that announces it, and how
//! a failed push is reported.

use vstd::prelude::*;

verus! {

/// One update of a ref on the remote.
#[derive(Clone, Debug, PartialEq, Eq)]
pub struct RefUpdate {
    /// Full name of the ref.
    pub qualified_name: String,
    /// The commit that the ref must point at for the update to go through;
    /// `None` asks for no such check.
    pub expected_current_target: Option<Vec<u8>>,
    /// The commit that the ref is to point at.
    pub new_target: Option<Vec<u8>>,
}

/// A [`RefUpdate`] as a mathematical value.
pub struct RefUpdateView {
    pub qualified_name: Seq<char>,
    pub expected_current_target: Option<Seq<u8>>,
    pub new_target: Option<Seq<u8>>,
}

/// An optional identifier as an optional byte string.
pub open spec fn id_view(id: Option<Vec<u8>>) -> Option<Seq<u8>> {
    match id {
        Some(bytes) => Some(bytes@),
        None => None,
    }
}

impl View for RefUpdate {
    type V = RefUpdateView;

    open spec fn view(&self) -> RefUpdateView {
        RefUpdateView {
            qualified_name: self.qualified_name@,
            expected_current_target: id_view(self.expected_current_target),
            new_target: id_view(self.new_target),
        }
    }
}

/// The ref that receives changes meant for `branch`.
pub open spec fn review_ref(branch: Seq<char>) -> Seq<char> {
    "refs/for/"@ + branch
}

/// The update that proposes `target` for `branch`: it names the review ref
/// of the branch and asks for no check of the ref's current value.
pub open spec fn review_update(branch: Seq<char>, target: Seq<u8>) -> RefUpdateView {
    RefUpdateView {
        qualified_name: review_ref(branch),
        expected_current_target: None,
        new_target: Some(target),
    }
}

/// The ref that receives changes meant for `branch`.
pub fn push_ref_name(branch: &str) -> (name: String)
    ensures
        name@ == review_ref(branch@),
{
    let mut name = String::from_str("refs/for/");
    name.append(branch);
    name
}

/// The update that proposes `target` for `branch`.
pub fn push_update(branch: &str, target: Vec<u8>) -> (update: RefUpdate)
    ensures
        update@ == review_update(branch@, target@),
{
    RefUpdate {
        qualified_name: push_ref_name(branch),
        expected_current_target: None,
        new_target: Some(target),
    }
}

/// How the line that announces a head begins.
pub open spec fn progress_prefix(dry_run: bool) -> Seq<char> {
    if dry_run {
        "Dry-run: Would push "@
    } else {
        "Pushing "@
    }
}

/// How the line that announces a head begins.
pub fn push_progress_prefix(dry_run: bool) -> (prefix: String)
    ensures
        prefix@ == progress_prefix(dry_run),
{
    if dry_run {
        String::from_str("Dry-run: Would push ")
    } else {
        String::from_str("Pushing ")
    }
}

/// Why the transport refused or failed a push.
#[derive(Clone, Copy, PartialEq, Eq, Structural, Debug)]
pub enum PushFailure {
    /// The remote does not exist.
    NoSuchRemote,
    /// The name of the remote is not acceptable.
    RemoteName,
    /// The repository is not backed by a store that can push.
    UnexpectedBackend,
    /// The program that carries out the push failed.
    Subprocess,
}

} // verus!
