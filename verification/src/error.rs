//! Why an upload stops, and the words in which it says so.

use crate::push::PushFailure;
use crate::remote::{RemoteError, RemoteErrorView};
use crate::text::{decimal, short_commit_hash, short_hash, to_decimal};
use vstd::prelude::*;

verus! {

/// Why an upload stops.
#[derive(Clone, Debug, PartialEq, Eq)]
pub enum UploadError {
    /// No remote could be chosen.
    Remote(RemoteError),
    /// No source names a target branch.
    NoTargetBranch,
    /// The selection holds the root commit.
    RootCommit,
    /// The commit has no description and changes nothing.
    Discardable(Vec<u8>),
    /// The description of the commit holds several tracking identifiers.
    MultipleChangeIds(Vec<u8>),
    /// The transport did not carry out a push; `diagnostic` is its account.
    Push { failure: PushFailure, diagnostic: String },
}

/// An [`UploadError`] as a mathematical value.
pub enum UploadErrorView {
    Remote(RemoteErrorView),
    NoTargetBranch,
    RootCommit,
    Discardable(Seq<u8>),
    MultipleChangeIds(Seq<u8>),
    Push { failure: PushFailure, diagnostic: Seq<char> },
}

impl View for UploadError {
    type V = UploadErrorView;

    open spec fn view(&self) -> UploadErrorView {
        match self {
            UploadError::Remote(e) => UploadErrorView::Remote(e@),
            UploadError::NoTargetBranch => UploadErrorView::NoTargetBranch,
            UploadError::RootCommit => UploadErrorView::RootCommit,
            UploadError::Discardable(id) => UploadErrorView::Discardable(id@),
            UploadError::MultipleChangeIds(id) => UploadErrorView::MultipleChangeIds(id@),
            UploadError::Push { failure, diagnostic } => UploadErrorView::Push {
                failure: *failure,
                diagnostic: diagnostic@,
            },
        }
    }
}

/// The message of an error.
pub open spec fn error_message(error: UploadErrorView) -> Seq<char> {
    match error {
        UploadErrorView::Remote(RemoteErrorView::UnknownExplicit(remote)) => "The remote '"@
            + remote + "' (specified via `--remote`) does not exist"@,
        UploadErrorView::Remote(RemoteErrorView::UnknownConfigured(remote)) => "The remote '"@
            + remote + "' (configured via `gerrit.default-remote`) does not exist"@,
        UploadErrorView::Remote(RemoteErrorView::Undetermined) =>
            "No remote specified, and no 'gerrit' remote was found"@,
        UploadErrorView::NoTargetBranch =>
            "No target branch specified via --remote-branch, and no 'gerrit.default-remote-branch' was found"@,
        UploadErrorView::RootCommit => "Cannot upload the virtual 'root()' commit"@,
        UploadErrorView::Discardable(id) => "Refusing to upload commit "@ + short_hash(id)
            + " because it is an empty commit with no description"@,
        UploadErrorView::MultipleChangeIds(id) => "multiple Change-Id footers in commit "@
            + short_hash(id),
        UploadErrorView::Push { failure, diagnostic } => if failure == PushFailure::Subprocess {
            "Internal git error while pushing to gerrit"@
        } else {
            diagnostic
        },
    }
}

/// The advice that goes with an error, where there is any.
pub open spec fn error_hint(error: UploadErrorView) -> Option<Seq<char>> {
    match error {
        UploadErrorView::Discardable(_) => Some(
            "Perhaps you squashed then ran upload? Maybe you meant to upload the parent commit instead (eg. @-)"@,
        ),
        _ => None,
    }
}

/// The account of the transport that stands behind an error's message.
pub open spec fn error_source(error: UploadErrorView) -> Option<Seq<char>> {
    match error {
        UploadErrorView::Push { failure, diagnostic } => if failure == PushFailure::Subprocess {
            Some(diagnostic)
        } else {
            None
        },
        _ => None,
    }
}

/// An optional text as an optional character string.
pub open spec fn text_view(text: Option<String>) -> Option<Seq<char>> {
    match text {
        Some(t) => Some(t@),
        None => None,
    }
}

impl UploadError {
    /// The message shown to the user.
    pub fn message(&self) -> (message: String)
        ensures
            message@ == error_message(self@),
    {
        match self {
            UploadError::Remote(RemoteError::UnknownExplicit(remote)) => {
                let mut message = String::from_str("The remote '");
                message.append(remote.as_str());
                message.append("' (specified via `--remote`) does not exist");
                message
            },
            UploadError::Remote(RemoteError::UnknownConfigured(remote)) => {
                let mut message = String::from_str("The remote '");
                message.append(remote.as_str());
                message.append("' (configured via `gerrit.default-remote`) does not exist");
                message
            },
            UploadError::Remote(RemoteError::Undetermined) => String::from_str(
                "No remote specified, and no 'gerrit' remote was found",
            ),
            UploadError::NoTargetBranch => String::from_str(
                "No target branch specified via --remote-branch, and no 'gerrit.default-remote-branch' was found",
            ),
            UploadError::RootCommit => String::from_str(
                "Cannot upload the virtual 'root()' commit",
            ),
            UploadError::Discardable(id) => {
                let mut message = String::from_str("Refusing to upload commit ");
                let short = short_commit_hash(id);
                message.append(short.as_str());
                message.append(" because it is an empty commit with no description");
                message
            },
            UploadError::MultipleChangeIds(id) => {
                let mut message = String::from_str("multiple Change-Id footers in commit ");
                let short = short_commit_hash(id);
                message.append(short.as_str());
                message
            },
            UploadError::Push { failure, diagnostic } => {
                if *failure == PushFailure::Subprocess {
                    String::from_str("Internal git error while pushing to gerrit")
                } else {
                    diagnostic.clone()
                }
            },
        }
    }

    /// The advice shown below the message, where there is any.
    pub fn hint(&self) -> (hint: Option<String>)
        ensures
            text_view(hint) == error_hint(self@),
    {
        match self {
            UploadError::Discardable(_) => Some(
                String::from_str(
                    "Perhaps you squashed then ran upload? Maybe you meant to upload the parent commit instead (eg. @-)",
                ),
            ),
            _ => None,
        }
    }

    /// The account of the transport that stands behind the message, where
    /// the message does not already consist of it.
    pub fn source(&self) -> (source: Option<String>)
        ensures
            text_view(source) == error_source(self@),
    {
        match self {
            UploadError::Push { failure, diagnostic } => {
                if *failure == PushFailure::Subprocess {
                    Some(diagnostic.clone())
                } else {
                    None
                }
            },
            _ => None,
        }
    }
}

/// What is reported when the selection is empty.
pub open spec fn nothing_to_upload() -> Seq<char> {
    "No revisions to upload."@
}

/// What is reported when the selection is empty.
pub fn nothing_to_upload_message() -> (message: String)
    ensures
        message@ == nothing_to_upload(),
{
    String::from_str("No revisions to upload.")
}

/// The warning about a tracking identifier that does not have the expected
/// shape.
pub open spec fn malformed_warning(id: Seq<u8>) -> Seq<char> {
    "warning: invalid Change-Id footer in commit "@ + short_hash(id)
}

/// The warning about a tracking identifier that does not have the expected
/// shape.
pub fn malformed_warning_message(id: &Vec<u8>) -> (message: String)
    ensures
        message@ == malformed_warning(id@),
{
    let mut message = String::from_str("warning: invalid Change-Id footer in commit ");
    let short = short_commit_hash(id);
    message.append(short.as_str());
    message
}

/// The line that says how many heads go where.
pub open spec fn announcement(heads: nat, remote: Seq<char>, branch: Seq<char>) -> Seq<char> {
    "Found "@ + decimal(heads) + " heads to push to Gerrit (remote '"@ + remote
        + "'), target branch '"@ + branch + "'"@
}

/// The line that says how many heads go where.
pub fn announcement_message(heads: usize, remote: &str, branch: &str) -> (message: String)
    ensures
        message@ == announcement(heads as nat, remote@, branch@),
{
    let mut message = String::from_str("Found ");
    let count = to_decimal(heads);
    message.append(count.as_str());
    message.append(" heads to push to Gerrit (remote '");
    message.append(remote);
    message.append("'), target branch '");
    message.append(branch);
    message.append("'");
    message
}

} // verus!
