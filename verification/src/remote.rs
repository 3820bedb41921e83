//! Where to push: the remote and the target branch, each taken from the
//! first source that names one.

use vstd::prelude::*;

verus! {

/// The character strings of a list of names, in order.
pub open spec fn names_view(names: Seq<String>) -> Seq<Seq<char>> {
    names.map_values(|n: String| n@)
}

/// Why no remote could be chosen.
#[derive(Clone, Debug, PartialEq, Eq)]
pub enum RemoteError {
    /// The remote named on the command line is not a remote of the repository.
    UnknownExplicit(String),
    /// The remote named by the configuration is not a remote of the repository.
    UnknownConfigured(String),
    /// No source names a remote, and none is called `gerrit`.
    Undetermined,
}

/// A [`RemoteError`] as a mathematical value.
pub enum RemoteErrorView {
    UnknownExplicit(Seq<char>),
    UnknownConfigured(Seq<char>),
    Undetermined,
}

impl View for RemoteError {
    type V = RemoteErrorView;

    open spec fn view(&self) -> RemoteErrorView {
        match self {
            RemoteError::UnknownExplicit(name) => RemoteErrorView::UnknownExplicit(name@),
            RemoteError::UnknownConfigured(name) => RemoteErrorView::UnknownConfigured(name@),
            RemoteError::Undetermined => RemoteErrorView::Undetermined,
        }
    }
}

/// The outcome that a result of [`calculate_push_remote`] stands for.
pub open spec fn remote_choice(result: Result<String, RemoteError>) -> Result<
    Seq<char>,
    RemoteErrorView,
> {
    match result {
        Ok(name) => Ok(name@),
        Err(e) => Err(e@),
    }
}

/// The outcome in which the remote `name` is chosen.
pub open spec fn chosen(name: Seq<char>) -> Result<Seq<char>, RemoteErrorView> {
    Ok(name)
}

/// The outcome in which no remote is chosen.
pub open spec fn refused(error: RemoteErrorView) -> Result<Seq<char>, RemoteErrorView> {
    Err(error)
}

/// The name tried when nothing else names a remote.
pub open spec fn fallback_remote() -> Seq<char> {
    "gerrit"@
}

/// The remote to push to. The first of these that is present decides: the
/// name given on the command line, the configured default, the push default
/// recorded by the repository, a remote called `gerrit`. The first two must
/// be remotes of the repository.
pub open spec fn resolve_remote(
    known: Seq<Seq<char>>,
    explicit: Option<Seq<char>>,
    configured: Option<Seq<char>>,
    default_push: Option<Seq<char>>,
) -> Result<Seq<char>, RemoteErrorView> {
    if let Some(name) = explicit {
        if known.contains(name) {
            Ok(name)
        } else {
            Err(RemoteErrorView::UnknownExplicit(name))
        }
    } else if let Some(name) = configured {
        if known.contains(name) {
            Ok(name)
        } else {
            Err(RemoteErrorView::UnknownConfigured(name))
        }
    } else if let Some(name) = default_push {
        Ok(name)
    } else if known.contains(fallback_remote()) {
        Ok(fallback_remote())
    } else {
        Err(RemoteErrorView::Undetermined)
    }
}

/// An optional name as an optional character string.
pub open spec fn name_view(name: Option<String>) -> Option<Seq<char>> {
    match name {
        Some(n) => Some(n@),
        None => None,
    }
}

/// Whether `name` is one of `names`.
pub fn contains_name(names: &Vec<String>, name: &String) -> (found: bool)
    ensures
        found == names_view(names@).contains(name@),
{
    let mut i: usize = 0;
    while i < names.len()
        invariant
            i <= names.len(),
            forall|k: int| 0 <= k < i ==> names_view(names@)[k] != name@,
        decreases names.len() - i,
    {
        if names[i] == *name {
            assert(names_view(names@)[i as int] == name@);
            return true;
        }
        i += 1;
    }
    false
}

/// Chooses the remote to push to. `remotes` are the remotes of the
/// repository, `remote` the name given on the command line, `configured` the
/// configured default and `default_push` the push default that the
/// repository records.
pub fn calculate_push_remote(
    remotes: &Vec<String>,
    remote: Option<String>,
    configured: Option<String>,
    default_push: Option<String>,
) -> (result: Result<String, RemoteError>)
    ensures
        remote_choice(result) == resolve_remote(
            names_view(remotes@),
            name_view(remote),
            name_view(configured),
            name_view(default_push),
        ),
{
    if let Some(name) = remote {
        if contains_name(remotes, &name) {
            return Ok(name);
        }
        return Err(RemoteError::UnknownExplicit(name));
    }
    if let Some(name) = configured {
        if contains_name(remotes, &name) {
            return Ok(name);
        }
        return Err(RemoteError::UnknownConfigured(name));
    }
    if let Some(name) = default_push {
        return Ok(name);
    }
    let fallback = String::from_str("gerrit");
    if contains_name(remotes, &fallback) {
        return Ok(fallback);
    }
    Err(RemoteError::Undetermined)
}

/// No source names a target branch.
#[derive(Clone, Copy, Debug, PartialEq, Eq)]
pub struct NoTargetBranch;

/// The branch that the changes are meant for: the one given on the command
/// line, else the configured default.
pub open spec fn resolve_branch(explicit: Option<Seq<char>>, configured: Option<Seq<char>>) -> Option<
    Seq<char>,
> {
    if explicit is Some {
        explicit
    } else {
        configured
    }
}

/// The branch that a result of [`calculate_push_ref`] stands for.
pub open spec fn branch_choice(result: Result<String, NoTargetBranch>) -> Option<Seq<char>> {
    match result {
        Ok(branch) => Some(branch@),
        Err(_) => None,
    }
}

/// Chooses the target branch. `remote_branch` is the branch given on the
/// command line, `configured` the configured default.
pub fn calculate_push_ref(remote_branch: Option<String>, configured: Option<String>) -> (result:
    Result<String, NoTargetBranch>)
    ensures
        branch_choice(result) == resolve_branch(name_view(remote_branch), name_view(configured)),
{
    if let Some(branch) = remote_branch {
        return Ok(branch);
    }
    if let Some(branch) = configured {
        return Ok(branch);
    }
    Err(NoTargetBranch)
}

/// A name given on the command line decides alone: neither the configured
/// default nor the recorded push default changes the outcome.
pub proof fn lemma_explicit_remote_overrides(
    known: Seq<Seq<char>>,
    explicit: Seq<char>,
    configured: Option<Seq<char>>,
    default_push: Option<Seq<char>>,
)
    ensures
        resolve_remote(known, Some(explicit), configured, default_push) == resolve_remote(
            known,
            Some(explicit),
            None,
            None,
        ),
        known.contains(explicit) ==> resolve_remote(known, Some(explicit), configured, default_push)
            == chosen(explicit),
        !known.contains(explicit) ==> resolve_remote(
            known,
            Some(explicit),
            configured,
            default_push,
        ) == refused(RemoteErrorView::UnknownExplicit(explicit)),
{
}

/// Without a name on the command line the configured default decides: the
/// recorded push default and a remote called `gerrit` do not change the
/// outcome.
pub proof fn lemma_configured_remote_overrides(
    known: Seq<Seq<char>>,
    configured: Seq<char>,
    default_push: Option<Seq<char>>,
)
    ensures
        resolve_remote(known, None, Some(configured), default_push) == resolve_remote(
            known,
            None,
            Some(configured),
            None,
        ),
        known.contains(configured) ==> resolve_remote(known, None, Some(configured), default_push)
            == chosen(configured),
        !known.contains(configured) ==> resolve_remote(known, None, Some(configured), default_push)
            == refused(RemoteErrorView::UnknownConfigured(configured)),
{
}

/// Without a name on the command line and without a configured default the
/// recorded push default is used, whether or not a remote called `gerrit`
/// exists.
pub proof fn lemma_default_push_remote_overrides(known: Seq<Seq<char>>, default_push: Seq<char>)
    ensures
        resolve_remote(known, None, None, Some(default_push)) == chosen(default_push),
{
}

/// With no source at all the remote called `gerrit` is used where it exists;
/// where it does not, no remote is chosen.
pub proof fn lemma_fallback_remote(known: Seq<Seq<char>>)
    ensures
        known.contains(fallback_remote()) ==> resolve_remote(known, None, None, None)
            == chosen(fallback_remote()),
        !known.contains(fallback_remote()) ==> resolve_remote(known, None, None, None)
            == refused(RemoteErrorView::Undetermined),
{
}

} // verus!
