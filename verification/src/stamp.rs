//! Stamping one commit: keep it where it already carries a tracking
//! identifier, otherwise describe the commit that replaces it.

use crate::commit::{ids_view, CommitRecord, CommitView, Signature, SignatureView};
use crate::rewrite_map::{resolve, RewriteMap};
use crate::text::{encode_hex, hex_string, trim, trimmed};
use crate::trailer::{
    change_id_values, classify_trailers, description_trailers, parse_description_trailers,
    trailers_view, well_formed_change_id, ExistingChangeId, Trailer,
};
use vstd::prelude::*;

verus! {

/// The commit to write in place of one that lacked a tracking identifier.
#[derive(Clone, Debug, PartialEq, Eq)]
pub struct NewCommit {
    pub description: String,
    pub parents: Vec<Vec<u8>>,
    pub author: Signature,
    pub committer: Signature,
}

/// A [`NewCommit`] as a mathematical value.
pub struct NewCommitView {
    pub description: Seq<char>,
    pub parents: Seq<Seq<u8>>,
    pub author: SignatureView,
    pub committer: SignatureView,
}

impl View for NewCommit {
    type V = NewCommitView;

    open spec fn view(&self) -> NewCommitView {
        NewCommitView {
            description: self.description@,
            parents: ids_view(self.parents@),
            author: self.author@,
            committer: self.committer@,
        }
    }
}

/// What stamping decides for one commit.
#[derive(Clone, Debug, PartialEq, Eq)]
pub enum StampAction {
    /// The description holds more than one tracking identifier.
    Reject,
    /// The description holds exactly one: the commit stays as it is. `warn`
    /// is set where the value does not have the expected shape.
    Keep { warn: bool },
    /// The description holds none: this commit is to be written instead.
    Rewrite(NewCommit),
}

/// A [`StampAction`] as a mathematical value.
pub enum Stamp {
    Reject,
    Keep { warn: bool },
    Rewrite(NewCommitView),
}

impl View for StampAction {
    type V = Stamp;

    open spec fn view(&self) -> Stamp {
        match self {
            StampAction::Reject => Stamp::Reject,
            StampAction::Keep { warn } => Stamp::Keep { warn: *warn },
            StampAction::Rewrite(commit) => Stamp::Rewrite(commit@),
        }
    }
}

/// The tracking identifier derived from a change identity: `I`, the eight
/// hexadecimal digits of the bytes `jjid`, then the identity in hexadecimal.
pub open spec fn gerrit_change_id(change_id: Seq<u8>) -> Seq<char> {
    "I6a6a6964"@ + hex_string(change_id)
}

/// The description with the derived tracking identifier appended as a
/// trailer: after a blank line where the description had no trailers, after
/// a single line break where it had some.
pub open spec fn stamped_description(
    description: Seq<char>,
    has_trailers: bool,
    change_id: Seq<u8>,
) -> Seq<char> {
    trimmed(description) + (if has_trailers {
        "\n"@
    } else {
        "\n\n"@
    }) + "Change-Id: "@ + gerrit_change_id(change_id) + "\n"@
}

/// Each parent replaced by what it stands for after stamping.
pub open spec fn remapped_parents(map: Map<Seq<u8>, Seq<u8>>, parents: Seq<Seq<u8>>) -> Seq<
    Seq<u8>,
> {
    parents.map_values(|p: Seq<u8>| resolve(map, p))
}

/// The decision for a commit whose description has the given trailers, with
/// `map` holding the commits rewritten so far.
pub open spec fn stamp_spec(
    commit: CommitView,
    trailers: Seq<(Seq<char>, Seq<char>)>,
    map: Map<Seq<u8>, Seq<u8>>,
) -> Stamp {
    let values = change_id_values(trailers);
    if values.len() >= 2 {
        Stamp::Reject
    } else if values.len() == 1 {
        Stamp::Keep { warn: !well_formed_change_id(values[0]) }
    } else {
        Stamp::Rewrite(
            NewCommitView {
                description: stamped_description(
                    commit.description,
                    trailers.len() > 0,
                    commit.change_id,
                ),
                parents: remapped_parents(map, commit.parents),
                author: commit.author,
                committer: commit.committer,
            },
        )
    }
}

/// The tracking identifier for a change identity.
pub fn derive_change_id(change_id: &Vec<u8>) -> (id: String)
    ensures
        id@ == gerrit_change_id(change_id@),
{
    let mut id = String::from_str("I6a6a6964");
    let hex = encode_hex(change_id);
    id.append(hex.as_str());
    id
}

/// The description of the stamped commit.
pub fn stamp_description(description: &str, has_trailers: bool, change_id: &Vec<u8>) -> (stamped:
    String)
    ensures
        stamped@ == stamped_description(description@, has_trailers, change_id@),
{
    let mut stamped = String::from_str(trim(description));
    if has_trailers {
        stamped.append("\n");
    } else {
        stamped.append("\n\n");
    }
    stamped.append("Change-Id: ");
    let id = derive_change_id(change_id);
    stamped.append(id.as_str());
    stamped.append("\n");
    stamped
}

/// The parents of a rewritten commit: a parent that was itself rewritten is
/// replaced by its rewritten form, any other parent stays.
pub fn remap_parents(map: &RewriteMap, parents: &Vec<Vec<u8>>) -> (remapped: Vec<Vec<u8>>)
    ensures
        ids_view(remapped@) == remapped_parents(map@, ids_view(parents@)),
{
    let mut remapped: Vec<Vec<u8>> = Vec::new();
    let mut i: usize = 0;
    while i < parents.len()
        invariant
            i <= parents.len(),
            remapped.len() == i,
            forall|k: int|
                0 <= k < i ==> (#[trigger] remapped@[k])@ == resolve(map@, parents@[k]@),
        decreases parents.len() - i,
    {
        let resolved = map.resolve(&parents[i]);
        remapped.push(resolved);
        i += 1;
    }
    assert(ids_view(remapped@) =~= remapped_parents(map@, ids_view(parents@)));
    remapped
}

/// Decides what stamping does with `commit`, whose description has the
/// trailers `trailers`.
pub fn stamp_commit(commit: &CommitRecord, trailers: &Vec<Trailer>, map: &RewriteMap) -> (action:
    StampAction)
    ensures
        action@ == stamp_spec(commit@, trailers_view(trailers@), map@),
{
    match classify_trailers(trailers) {
        ExistingChangeId::Multiple => StampAction::Reject,
        ExistingChangeId::Single { value: _, well_formed } => StampAction::Keep {
            warn: !well_formed,
        },
        ExistingChangeId::Absent => {
            let description = stamp_description(
                commit.description.as_str(),
                trailers.len() > 0,
                &commit.change_id,
            );
            let parents = remap_parents(map, &commit.parents);
            StampAction::Rewrite(
                NewCommit {
                    description,
                    parents,
                    author: commit.author.duplicate(),
                    committer: commit.committer.duplicate(),
                },
            )
        },
    }
}

/// Decides what stamping does with `commit`: parses the trailers of its
/// description, then decides as [`stamp_commit`] does.
pub fn plan_stamp(commit: &CommitRecord, map: &RewriteMap) -> (action: StampAction)
    ensures
        action@ == stamp_spec(commit@, description_trailers(commit.description@), map@),
{
    let trailers = parse_description_trailers(commit.description.as_str());
    stamp_commit(commit, &trailers, map)
}

} // verus!
