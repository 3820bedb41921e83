//! What the upload reads of a commit, held as plain values.

use crate::text::same_bytes;
use vstd::prelude::*;

verus! {

/// Who made a commit and when.
#[derive(Clone, Debug, PartialEq, Eq)]
pub struct Signature {
    pub name: String,
    pub email: String,
    /// Milliseconds since the Unix epoch.
    pub timestamp_millis: i64,
    /// Offset of the local time zone from UTC, in minutes.
    pub tz_offset_minutes: i32,
}

/// A [`Signature`] as a mathematical value.
pub struct SignatureView {
    pub name: Seq<char>,
    pub email: Seq<char>,
    pub timestamp_millis: int,
    pub tz_offset_minutes: int,
}

impl View for Signature {
    type V = SignatureView;

    open spec fn view(&self) -> SignatureView {
        SignatureView {
            name: self.name@,
            email: self.email@,
            timestamp_millis: self.timestamp_millis as int,
            tz_offset_minutes: self.tz_offset_minutes as int,
        }
    }
}

impl Signature {
    /// A copy with the same name, address and time.
    pub fn duplicate(&self) -> (copy: Signature)
        ensures
            copy@ == self@,
    {
        Signature {
            name: self.name.clone(),
            email: self.email.clone(),
            timestamp_millis: self.timestamp_millis,
            tz_offset_minutes: self.tz_offset_minutes,
        }
    }
}

/// The byte strings of a list of identifiers, in order.
pub open spec fn ids_view(ids: Seq<Vec<u8>>) -> Seq<Seq<u8>> {
    ids.map_values(|id: Vec<u8>| id@)
}

/// A commit of the graph, as far as the upload looks at it.
#[derive(Clone, Debug, PartialEq, Eq)]
pub struct CommitRecord {
    /// Identifier derived from content and parents; changes with every rewrite.
    pub id: Vec<u8>,
    /// Identity of the logical change; survives rewrites.
    pub change_id: Vec<u8>,
    /// Identifiers of the parents, in order.
    pub parents: Vec<Vec<u8>>,
    pub description: String,
    pub author: Signature,
    pub committer: Signature,
    /// No description and no change of content relative to the parent.
    pub discardable: bool,
}

/// A [`CommitRecord`] as a mathematical value.
pub struct CommitView {
    pub id: Seq<u8>,
    pub change_id: Seq<u8>,
    pub parents: Seq<Seq<u8>>,
    pub description: Seq<char>,
    pub author: SignatureView,
    pub committer: SignatureView,
    pub discardable: bool,
}

impl View for CommitRecord {
    type V = CommitView;

    open spec fn view(&self) -> CommitView {
        CommitView {
            id: self.id@,
            change_id: self.change_id@,
            parents: ids_view(self.parents@),
            description: self.description@,
            author: self.author@,
            committer: self.committer@,
            discardable: self.discardable,
        }
    }
}

/// The commits of a list as mathematical values, in order.
pub open spec fn commits_view(commits: Seq<CommitRecord>) -> Seq<CommitView> {
    commits.map_values(|c: CommitRecord| c@)
}

/// Whether `id` occurs among `ids`.
pub fn contains_id(ids: &Vec<Vec<u8>>, id: &Vec<u8>) -> (found: bool)
    ensures
        found == ids_view(ids@).contains(id@),
{
    let mut i: usize = 0;
    while i < ids.len()
        invariant
            i <= ids.len(),
            forall|k: int| 0 <= k < i ==> ids_view(ids@)[k] != id@,
        decreases ids.len() - i,
    {
        if same_bytes(&ids[i], id) {
            assert(ids_view(ids@)[i as int] == id@);
            return true;
        }
        i += 1;
    }
    false
}

} // verus!
