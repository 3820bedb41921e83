//! An upload from accepted selection to last push, as a state machine: the
//! caller carries out what a step asks for and reports back what came of it.

use crate::args::{copy_name, UploadArgs, UploadArgsView};
use crate::commit::{commits_view, contains_id, ids_view, CommitRecord, CommitView};
use crate::text::same_bytes;
use crate::error::{
    announcement, announcement_message, malformed_warning, malformed_warning_message, text_view,
    UploadError, UploadErrorView,
};
use crate::push::{
    id_view, progress_prefix, push_progress_prefix, push_update, review_update, PushFailure, RefUpdate,
    RefUpdateView,
};
use crate::remote::{
    calculate_push_ref, calculate_push_remote, name_view, names_view, resolve_branch,
    resolve_remote,
};
use crate::rewrite_map::{no_entries, RewriteMap};
use crate::stamp::{plan_stamp, stamp_spec, NewCommit, NewCommitView, Stamp, StampAction};
use crate::trailer::description_trailers;
use vstd::prelude::*;

verus! {

/// What the selection allows.
#[derive(Clone, Copy, PartialEq, Eq, Structural, Debug)]
pub enum SelectionVerdict {
    /// The selection is empty: there is nothing to upload, which is no error.
    NothingToUpload,
    /// The selection holds the root commit, which cannot be uploaded.
    RootSelected,
    /// The upload may go on.
    Proceed,
}

/// What a selection allows: nothing where it is empty, a refusal where it
/// holds the root commit.
pub open spec fn selection_verdict(selection: Seq<Seq<u8>>, root: Seq<u8>) -> SelectionVerdict {
    if selection.len() == 0 {
        SelectionVerdict::NothingToUpload
    } else if selection.contains(root) {
        SelectionVerdict::RootSelected
    } else {
        SelectionVerdict::Proceed
    }
}

/// Judges the selected commits; `root` is the root commit of the graph.
pub fn check_selection(selection: &Vec<Vec<u8>>, root: &Vec<u8>) -> (verdict: SelectionVerdict)
    ensures
        verdict == selection_verdict(ids_view(selection@), root@),
{
    if selection.len() == 0 {
        SelectionVerdict::NothingToUpload
    } else if contains_id(selection, root) {
        SelectionVerdict::RootSelected
    } else {
        SelectionVerdict::Proceed
    }
}

/// What the repository says about an accepted selection.
#[derive(Clone, Debug, PartialEq, Eq)]
pub struct RepoFacts {
    /// The ancestors of the selection, the selection included, that may be
    /// rewritten; each commit stands before its parents.
    pub to_upload: Vec<CommitRecord>,
    /// The selected commits of which no other selected commit descends.
    pub heads: Vec<Vec<u8>>,
    /// The remotes of the repository.
    pub remotes: Vec<String>,
    /// The configured default remote.
    pub configured_remote: Option<String>,
    /// The push default that the repository records.
    pub default_push_remote: Option<String>,
    /// The configured default target branch.
    pub configured_branch: Option<String>,
}

/// [`RepoFacts`] as a mathematical value.
pub struct RepoFactsView {
    pub to_upload: Seq<CommitView>,
    pub heads: Seq<Seq<u8>>,
    pub remotes: Seq<Seq<char>>,
    pub configured_remote: Option<Seq<char>>,
    pub default_push_remote: Option<Seq<char>>,
    pub configured_branch: Option<Seq<char>>,
}

impl View for RepoFacts {
    type V = RepoFactsView;

    open spec fn view(&self) -> RepoFactsView {
        RepoFactsView {
            to_upload: commits_view(self.to_upload@),
            heads: ids_view(self.heads@),
            remotes: names_view(self.remotes@),
            configured_remote: name_view(self.configured_remote),
            default_push_remote: name_view(self.default_push_remote),
            configured_branch: name_view(self.configured_branch),
        }
    }
}

/// The identifiers of a chain of commits, in order.
pub open spec fn chain_ids(chain: Seq<CommitView>) -> Seq<Seq<u8>> {
    chain.map_values(|c: CommitView| c.id)
}

/// Whether every head is a commit of the chain.
pub open spec fn heads_within(chain: Seq<CommitView>, heads: Seq<Seq<u8>>) -> bool {
    forall|i: int| 0 <= i < heads.len() ==> chain_ids(chain).contains(#[trigger] heads[i])
}

/// The first commit of the chain that has no description and changes
/// nothing, if there is one.
pub open spec fn first_discardable(chain: Seq<CommitView>) -> Option<Seq<u8>>
    decreases chain.len(),
{
    if chain.len() == 0 {
        None
    } else if chain[0].discardable {
        Some(chain[0].id)
    } else {
        first_discardable(chain.subrange(1, chain.len() as int))
    }
}

/// Where an upload stands.
#[derive(Clone, Copy, PartialEq, Eq, Structural, Debug)]
pub enum Phase {
    /// Commits are being stamped, parents before children.
    Stamping,
    /// Every commit is stamped; heads are being pushed.
    Pushing,
    /// Nothing is left to do, after success or after a failure.
    Finished,
}

/// An upload as a mathematical value.
pub struct SessionView {
    pub phase: Phase,
    pub dry_run: bool,
    /// The commits to stamp, each before its parents.
    pub chain: Seq<CommitView>,
    /// How many commits of the chain are not stamped yet; they are its first.
    pub remaining: nat,
    /// Whether the last step asked for a commit to be written.
    pub awaiting_write: bool,
    pub map: Map<Seq<u8>, Seq<u8>>,
    pub heads: Seq<Seq<u8>>,
    /// How many heads have been announced.
    pub next_head: nat,
    pub remote: Seq<char>,
    pub branch: Seq<char>,
}

impl SessionView {
    /// The commit to stamp next.
    pub open spec fn current(self) -> CommitView {
        self.chain[self.remaining - 1]
    }

    /// What stamping decides for the commit to stamp next.
    pub open spec fn next_stamp(self) -> Stamp {
        stamp_spec(self.current(), description_trailers(self.current().description), self.map)
    }

    /// The identifiers of the commits that are stamped already.
    pub open spec fn stamped_ids(self) -> Seq<Seq<u8>> {
        chain_ids(self.chain).subrange(self.remaining as int, self.chain.len() as int)
    }

    /// The mapping holds exactly the commits stamped so far, every head is a
    /// commit of the chain, and pushing starts only when the whole chain is
    /// stamped.
    pub open spec fn well_formed(self) -> bool {
        &&& self.remaining <= self.chain.len()
        &&& self.next_head <= self.heads.len()
        &&& forall|id: Seq<u8>| self.map.contains_key(id) <==> self.stamped_ids().contains(id)
        &&& heads_within(self.chain, self.heads)
        &&& self.phase == Phase::Pushing ==> self.remaining == 0
        &&& self.phase == Phase::Stamping ==> self.next_head == 0
        &&& self.awaiting_write ==> {
            &&& self.phase == Phase::Stamping
            &&& self.remaining > 0
            &&& self.next_stamp() is Rewrite
        }
    }
}

/// What the caller is to do next.
#[derive(Clone, Debug, PartialEq, Eq)]
pub enum Step {
    /// Nothing: the upload is over.
    Done,
    /// Give up with this error.
    Fail(UploadError),
    /// Nothing to write: `commit` stays as it is. Show `warning` where there
    /// is one.
    Keep { commit: Vec<u8>, warning: Option<String> },
    /// Write `new_commit` in place of `commit`, then report the identifier
    /// of what was written.
    Write { commit: Vec<u8>, new_commit: NewCommit },
    /// Every commit is stamped: show `message`.
    Announce { message: String },
    /// Show `progress` and a summary of the commit `head`; then carry out
    /// `update` where there is one, and report if it fails.
    Push { head: Vec<u8>, progress: String, update: Option<RefUpdate> },
}

/// A [`Step`] as a mathematical value.
pub enum StepView {
    Done,
    Fail(UploadErrorView),
    Keep { commit: Seq<u8>, warning: Option<Seq<char>> },
    Write { commit: Seq<u8>, new_commit: NewCommitView },
    Announce { message: Seq<char> },
    Push { head: Seq<u8>, progress: Seq<char>, update: Option<RefUpdateView> },
}

/// An optional update as a mathematical value.
pub open spec fn update_view(update: Option<RefUpdate>) -> Option<RefUpdateView> {
    match update {
        Some(u) => Some(u@),
        None => None,
    }
}

impl View for Step {
    type V = StepView;

    open spec fn view(&self) -> StepView {
        match self {
            Step::Done => StepView::Done,
            Step::Fail(e) => StepView::Fail(e@),
            Step::Keep { commit, warning } => StepView::Keep {
                commit: commit@,
                warning: text_view(*warning),
            },
            Step::Write { commit, new_commit } => StepView::Write {
                commit: commit@,
                new_commit: new_commit@,
            },
            Step::Announce { message } => StepView::Announce { message: message@ },
            Step::Push { head, progress, update } => StepView::Push {
                head: head@,
                progress: progress@,
                update: update_view(*update),
            },
        }
    }
}

/// One step of an upload: the state afterwards and what the caller is to do.
///
/// While stamping, the last commit of the chain that is not stamped yet is
/// looked at. With several tracking identifiers the upload fails. With one,
/// the commit is recorded as standing for itself. With none, the caller is
/// asked to write the stamped commit, and the state stays until the caller
/// reports what was written. When the chain is done the heads are announced
/// once, then one per step in their order, each with an update unless this
/// is a dry run.
pub open spec fn step_spec(s: SessionView) -> (SessionView, StepView) {
    match s.phase {
        Phase::Finished => (s, StepView::Done),
        Phase::Stamping => if s.remaining == 0 {
            (
                SessionView { phase: Phase::Pushing, ..s },
                StepView::Announce {
                    message: announcement(s.heads.len(), s.remote, s.branch),
                },
            )
        } else {
            let commit = s.current().id;
            match s.next_stamp() {
                Stamp::Reject => (
                    SessionView { phase: Phase::Finished, awaiting_write: false, ..s },
                    StepView::Fail(UploadErrorView::MultipleChangeIds(commit)),
                ),
                Stamp::Keep { warn } => (
                    SessionView {
                        remaining: (s.remaining - 1) as nat,
                        map: s.map.insert(commit, commit),
                        ..s
                    },
                    StepView::Keep {
                        commit,
                        warning: if warn {
                            Some(malformed_warning(commit))
                        } else {
                            None
                        },
                    },
                ),
                Stamp::Rewrite(new_commit) => (
                    SessionView { awaiting_write: true, ..s },
                    StepView::Write { commit, new_commit },
                ),
            }
        },
        Phase::Pushing => if s.next_head >= s.heads.len() {
            (SessionView { phase: Phase::Finished, ..s }, StepView::Done)
        } else {
            let head = s.heads[s.next_head as int];
            (
                SessionView { next_head: s.next_head + 1, ..s },
                StepView::Push {
                    head,
                    progress: progress_prefix(s.dry_run),
                    update: if s.dry_run {
                        None
                    } else {
                        Some(review_update(s.branch, s.map[head]))
                    },
                },
            )
        },
    }
}

/// The state after the caller reports that the commit asked for was written
/// and got the identifier `new_id`. Without such a request nothing changes.
pub open spec fn written_spec(s: SessionView, new_id: Seq<u8>) -> SessionView {
    if s.phase == Phase::Stamping && s.awaiting_write && s.remaining > 0 {
        SessionView {
            remaining: (s.remaining - 1) as nat,
            awaiting_write: false,
            map: s.map.insert(s.current().id, new_id),
            ..s
        }
    } else {
        s
    }
}

/// The state after a push failed: the upload is over.
pub open spec fn push_failed_spec(s: SessionView) -> SessionView {
    SessionView { phase: Phase::Finished, awaiting_write: false, ..s }
}

/// How an upload begins.
pub enum Start {
    /// The selection is empty.
    Nothing,
    /// The upload cannot begin.
    Failed(UploadError),
    /// Stamping can begin.
    Ready(UploadSession),
}

/// A [`Start`] as a mathematical value.
pub enum StartView {
    Nothing,
    Failed(UploadErrorView),
    Ready(SessionView),
}

/// How an upload begins. An empty selection ends it at once, without
/// error. Otherwise it fails where the selection holds the root commit,
/// where no remote or no target branch can be chosen, or where a commit to
/// upload has no description and changes nothing. Else stamping begins at
/// the end of the chain, with an empty mapping.
pub open spec fn start_spec(
    args: UploadArgsView,
    selection: Seq<Seq<u8>>,
    root: Seq<u8>,
    facts: RepoFactsView,
) -> StartView {
    match selection_verdict(selection, root) {
        SelectionVerdict::NothingToUpload => StartView::Nothing,
        SelectionVerdict::RootSelected => StartView::Failed(UploadErrorView::RootCommit),
        SelectionVerdict::Proceed => match resolve_remote(
            facts.remotes,
            args.remote,
            facts.configured_remote,
            facts.default_push_remote,
        ) {
            Err(e) => StartView::Failed(UploadErrorView::Remote(e)),
            Ok(remote) => match resolve_branch(args.remote_branch, facts.configured_branch) {
                None => StartView::Failed(UploadErrorView::NoTargetBranch),
                Some(branch) => match first_discardable(facts.to_upload) {
                    Some(id) => StartView::Failed(UploadErrorView::Discardable(id)),
                    None => StartView::Ready(
                        SessionView {
                            phase: Phase::Stamping,
                            dry_run: args.dry_run,
                            chain: facts.to_upload,
                            remaining: facts.to_upload.len(),
                            awaiting_write: false,
                            map: no_entries(),
                            heads: facts.heads,
                            next_head: 0,
                            remote,
                            branch,
                        },
                    ),
                },
            },
        },
    }
}

/// An upload in progress.
pub struct UploadSession {
    phase: Phase,
    dry_run: bool,
    chain: Vec<CommitRecord>,
    remaining: usize,
    awaiting_write: bool,
    map: RewriteMap,
    heads: Vec<Vec<u8>>,
    next_head: usize,
    remote: String,
    branch: String,
}

impl View for UploadSession {
    type V = SessionView;

    closed spec fn view(&self) -> SessionView {
        SessionView {
            phase: self.phase,
            dry_run: self.dry_run,
            chain: commits_view(self.chain@),
            remaining: self.remaining as nat,
            awaiting_write: self.awaiting_write,
            map: self.map@,
            heads: ids_view(self.heads@),
            next_head: self.next_head as nat,
            remote: self.remote@,
            branch: self.branch@,
        }
    }
}

impl View for Start {
    type V = StartView;

    open spec fn view(&self) -> StartView {
        match self {
            Start::Nothing => StartView::Nothing,
            Start::Failed(e) => StartView::Failed(e@),
            Start::Ready(session) => StartView::Ready(session@),
        }
    }
}

/// The first commit of the chain that has no description and changes
/// nothing, if there is one.
pub fn find_discardable(chain: &Vec<CommitRecord>) -> (found: Option<Vec<u8>>)
    ensures
        id_view(found) == first_discardable(commits_view(chain@)),
{
    let ghost all = commits_view(chain@);
    let mut i: usize = 0;
    assert(all.subrange(0, all.len() as int) =~= all);
    while i < chain.len()
        invariant
            i <= chain.len(),
            all == commits_view(chain@),
            first_discardable(all) == first_discardable(all.subrange(i as int, all.len() as int)),
        decreases chain.len() - i,
    {
        let ghost rest = all.subrange(i as int, all.len() as int);
        assert(rest[0] == chain@[i as int]@);
        assert(rest.subrange(1, rest.len() as int) =~= all.subrange(i + 1, all.len() as int));
        if chain[i].discardable {
            return Some(chain[i].id.clone());
        }
        i += 1;
    }
    assert(all.subrange(i as int, all.len() as int).len() == 0);
    None
}

/// Whether `id` is the identifier of a commit of the chain.
pub fn chain_has(chain: &Vec<CommitRecord>, id: &Vec<u8>) -> (found: bool)
    ensures
        found == chain_ids(commits_view(chain@)).contains(id@),
{
    let ghost ids = chain_ids(commits_view(chain@));
    let mut j: usize = 0;
    while j < chain.len()
        invariant
            j <= chain.len(),
            ids == chain_ids(commits_view(chain@)),
            forall|k: int| 0 <= k < j ==> ids[k] != id@,
        decreases chain.len() - j,
    {
        if same_bytes(&chain[j].id, id) {
            assert(ids[j as int] == id@);
            return true;
        }
        j += 1;
    }
    false
}

/// Whether every head is a commit of the chain.
pub fn heads_in_chain(chain: &Vec<CommitRecord>, heads: &Vec<Vec<u8>>) -> (within: bool)
    ensures
        within == heads_within(commits_view(chain@), ids_view(heads@)),
{
    let ghost ids = chain_ids(commits_view(chain@));
    let mut i: usize = 0;
    while i < heads.len()
        invariant
            i <= heads.len(),
            ids == chain_ids(commits_view(chain@)),
            forall|k: int| 0 <= k < i ==> ids.contains(#[trigger] ids_view(heads@)[k]),
        decreases heads.len() - i,
    {
        if !chain_has(chain, &heads[i]) {
            assert(!ids.contains(ids_view(heads@)[i as int]));
            return false;
        }
        i += 1;
    }
    true
}

/// An identifier is among the commits stamped after one more commit is
/// stamped exactly if it is that commit or was among them before.
pub(crate) proof fn lemma_one_more_stamped(ids: Seq<Seq<u8>>, remaining: int, id: Seq<u8>)
    requires
        0 < remaining <= ids.len(),
    ensures
        ids.subrange(remaining - 1, ids.len() as int).contains(id) <==> (id == ids[remaining - 1]
            || ids.subrange(remaining, ids.len() as int).contains(id)),
{
    let more = ids.subrange(remaining - 1, ids.len() as int);
    let fewer = ids.subrange(remaining, ids.len() as int);
    if more.contains(id) {
        let i = choose|i: int| 0 <= i < more.len() && more[i] == id;
        if i > 0 {
            assert(fewer[i - 1] == id);
        }
    }
    if fewer.contains(id) {
        let i = choose|i: int| 0 <= i < fewer.len() && fewer[i] == id;
        assert(more[i + 1] == id);
    }
    assert(more[0] == ids[remaining - 1]);
}

/// Recording the commit that was stamped last keeps the state well formed.
proof fn lemma_record_keeps_well_formed(s: SessionView, value: Seq<u8>, after: SessionView)
    requires
        s.well_formed(),
        s.phase == Phase::Stamping,
        s.remaining > 0,
        after == (SessionView {
            remaining: (s.remaining - 1) as nat,
            awaiting_write: false,
            map: s.map.insert(s.current().id, value),
            ..s
        }),
    ensures
        after.well_formed(),
{
    let ids = chain_ids(s.chain);
    assert(ids[s.remaining - 1] == s.current().id);
    assert(after.stamped_ids() == ids.subrange(s.remaining - 1, ids.len() as int));
    assert(s.stamped_ids() == ids.subrange(s.remaining as int, ids.len() as int));
    assert forall|id: Seq<u8>| after.map.contains_key(id) <==> after.stamped_ids().contains(
        id,
    ) by {
        lemma_one_more_stamped(ids, s.remaining as int, id);
        assert(s.map.contains_key(id) <==> s.stamped_ids().contains(id));
    }
}

/// A state that differs from a well-formed one in neither chain, progress of
/// stamping, mapping nor heads agrees with it on what is stamped.
proof fn lemma_stamped_unchanged(s: SessionView, after: SessionView)
    requires
        s.well_formed(),
        after.chain == s.chain,
        after.remaining == s.remaining,
        after.map == s.map,
        after.heads == s.heads,
    ensures
        forall|id: Seq<u8>| after.map.contains_key(id) <==> after.stamped_ids().contains(id),
        heads_within(after.chain, after.heads),
{
    assert(after.stamped_ids() == s.stamped_ids());
    assert forall|id: Seq<u8>| after.map.contains_key(id) <==> after.stamped_ids().contains(
        id,
    ) by {
        assert(s.map.contains_key(id) <==> s.stamped_ids().contains(id));
    }
}

impl UploadSession {
    /// Begins an upload of `selection`; `root` is the root commit of the
    /// graph and `facts` is what the repository says about the selection.
    pub fn start(
        args: &UploadArgs,
        selection: &Vec<Vec<u8>>,
        root: &Vec<u8>,
        facts: RepoFacts,
    ) -> (start: Start)
        requires
            heads_within(facts@.to_upload, facts@.heads),
        ensures
            start@ == start_spec(args@, ids_view(selection@), root@, facts@),
            start matches Start::Ready(session) ==> session@.well_formed(),
    {
        match check_selection(selection, root) {
            SelectionVerdict::NothingToUpload => {
                return Start::Nothing;
            },
            SelectionVerdict::RootSelected => {
                return Start::Failed(UploadError::RootCommit);
            },
            SelectionVerdict::Proceed => {},
        }
        let ghost facts_view = facts@;
        let RepoFacts {
            to_upload,
            heads,
            remotes,
            configured_remote,
            default_push_remote,
            configured_branch,
        } = facts;
        let remote = match calculate_push_remote(
            &remotes,
            copy_name(&args.remote),
            configured_remote,
            default_push_remote,
        ) {
            Ok(remote) => remote,
            Err(e) => {
                return Start::Failed(UploadError::Remote(e));
            },
        };
        let branch = match calculate_push_ref(copy_name(&args.remote_branch), configured_branch) {
            Ok(branch) => branch,
            Err(_) => {
                return Start::Failed(UploadError::NoTargetBranch);
            },
        };
        if let Some(id) = find_discardable(&to_upload) {
            return Start::Failed(UploadError::Discardable(id));
        }
        let remaining = to_upload.len();
        let session = UploadSession {
            phase: Phase::Stamping,
            dry_run: args.dry_run,
            chain: to_upload,
            remaining,
            awaiting_write: false,
            map: RewriteMap::new(),
            heads,
            next_head: 0,
            remote,
            branch,
        };
        assert(session@.stamped_ids().len() == 0);
        Start::Ready(session)
    }

    /// Where the upload stands.
    pub fn phase(&self) -> (phase: Phase)
        ensures
            phase == self@.phase,
    {
        self.phase
    }

    /// Whether pushes are left out.
    pub fn is_dry_run(&self) -> (dry_run: bool)
        ensures
            dry_run == self@.dry_run,
    {
        self.dry_run
    }

    /// The remote that the heads are pushed to.
    pub fn remote(&self) -> (remote: &String)
        ensures
            remote@ == self@.remote,
    {
        &self.remote
    }

    /// The branch that the changes are meant for.
    pub fn branch(&self) -> (branch: &String)
        ensures
            branch@ == self@.branch,
    {
        &self.branch
    }

    /// The commit that stands for `original` after stamping, where
    /// `original` is stamped already.
    pub fn rewritten(&self, original: &Vec<u8>) -> (rewritten: Option<Vec<u8>>)
        ensures
            match rewritten {
                Some(id) => self@.map.contains_key(original@) && id@ == self@.map[original@],
                None => !self@.map.contains_key(original@),
            },
    {
        self.map.get(original)
    }

    /// Takes one step: see [`step_spec`].
    pub fn step(&mut self) -> (step: Step)
        requires
            old(self)@.well_formed(),
        ensures
            (final(self)@, step@) == step_spec(old(self)@),
            final(self)@.well_formed(),
    {
        match self.phase {
            Phase::Finished => Step::Done,
            Phase::Stamping => {
                if self.remaining == 0 {
                    self.phase = Phase::Pushing;
                    proof {
                        lemma_stamped_unchanged(old(self)@, self@);
                    }
                    Step::Announce {
                        message: announcement_message(
                            self.heads.len(),
                            self.remote.as_str(),
                            self.branch.as_str(),
                        ),
                    }
                } else {
                    let commit = self.chain[self.remaining - 1].id.clone();
                    let action = plan_stamp(&self.chain[self.remaining - 1], &self.map);
                    match action {
                        StampAction::Reject => {
                            self.phase = Phase::Finished;
                            self.awaiting_write = false;
                            proof {
                                lemma_stamped_unchanged(old(self)@, self@);
                            }
                            Step::Fail(UploadError::MultipleChangeIds(commit))
                        },
                        StampAction::Keep { warn } => {
                            proof {
                                lemma_record_keeps_well_formed(
                                    SessionView { awaiting_write: false, ..old(self)@ },
                                    commit@,
                                    SessionView {
                                        remaining: (old(self)@.remaining - 1) as nat,
                                        map: old(self)@.map.insert(commit@, commit@),
                                        ..old(self)@
                                    },
                                );
                            }
                            self.map.insert(commit.clone(), commit.clone());
                            self.remaining = self.remaining - 1;
                            let warning = if warn {
                                Some(malformed_warning_message(&commit))
                            } else {
                                None
                            };
                            Step::Keep { commit, warning }
                        },
                        StampAction::Rewrite(new_commit) => {
                            self.awaiting_write = true;
                            proof {
                                lemma_stamped_unchanged(old(self)@, self@);
                            }
                            Step::Write { commit, new_commit }
                        },
                    }
                }
            },
            Phase::Pushing => {
                if self.next_head >= self.heads.len() {
                    self.phase = Phase::Finished;
                    proof {
                        lemma_stamped_unchanged(old(self)@, self@);
                    }
                    Step::Done
                } else {
                    let head = self.heads[self.next_head].clone();
                    let progress = push_progress_prefix(self.dry_run);
                    let update = if self.dry_run {
                        None
                    } else {
                        proof {
                            let ids = chain_ids(old(self)@.chain);
                            assert(ids.contains(old(self)@.heads[old(self)@.next_head as int]));
                            assert(old(self)@.stamped_ids() =~= ids);
                        }
                        match self.map.get(&head) {
                            Some(target) => Some(push_update(self.branch.as_str(), target)),
                            None => None,
                        }
                    };
                    self.next_head = self.next_head + 1;
                    proof {
                        lemma_stamped_unchanged(old(self)@, self@);
                    }
                    Step::Push { head, progress, update }
                }
            },
        }
    }

    /// Reports that the commit asked for by the last step was written and
    /// got the identifier `new_id`. Returns whether a commit was asked for;
    /// where none was, nothing changes.
    pub fn written(&mut self, new_id: Vec<u8>) -> (recorded: bool)
        requires
            old(self)@.well_formed(),
        ensures
            final(self)@ == written_spec(old(self)@, new_id@),
            final(self)@.well_formed(),
            recorded == old(self)@.awaiting_write,
    {
        if !self.awaiting_write {
            return false;
        }
        let commit = self.chain[self.remaining - 1].id.clone();
        proof {
            lemma_record_keeps_well_formed(
                old(self)@,
                new_id@,
                written_spec(old(self)@, new_id@),
            );
        }
        self.map.insert(commit, new_id);
        self.remaining = self.remaining - 1;
        self.awaiting_write = false;
        true
    }

    /// Reports that the push asked for by the last step failed. The upload
    /// is over; what is returned says why.
    pub fn push_failed(&mut self, failure: PushFailure, diagnostic: String) -> (error: UploadError)
        requires
            old(self)@.well_formed(),
        ensures
            final(self)@ == push_failed_spec(old(self)@),
            final(self)@.well_formed(),
            error@ == (UploadErrorView::Push { failure, diagnostic: diagnostic@ }),
    {
        self.phase = Phase::Finished;
        self.awaiting_write = false;
        proof {
            lemma_stamped_unchanged(old(self)@, self@);
        }
        UploadError::Push { failure, diagnostic }
    }
}

} // verus!
