//! What holds of every upload, stated over the mathematical values of the
//! other modules.

use crate::args::UploadArgsView;
use crate::commit::CommitView;
use crate::error::{announcement, UploadErrorView};
use crate::push::{progress_prefix, review_update, RefUpdateView};
use crate::rewrite_map::resolve;
use crate::session::{
    chain_ids, heads_within, lemma_one_more_stamped, start_spec, step_spec, written_spec, Phase, RepoFactsView, SessionView, StartView, StepView,
};
use crate::stamp::{remapped_parents, stamp_spec, stamped_description, NewCommitView, Stamp};
use crate::trailer::{change_id_values, description_trailers, well_formed_change_id};
use vstd::prelude::*;

verus! {

/// The commit written for a commit without tracking identifier depends on
/// its description, its change identity, its author and committer, and on
/// what its parents stand for, and on nothing else: two commits that agree
/// in these are stamped alike under two mappings that agree on the parents.
/// Author and committer, times included, are taken over as they are.
pub proof fn lemma_stamping_is_repeatable(
    first: CommitView,
    second: CommitView,
    trailers: Seq<(Seq<char>, Seq<char>)>,
    first_map: Map<Seq<u8>, Seq<u8>>,
    second_map: Map<Seq<u8>, Seq<u8>>,
)
    requires
        first.description == second.description,
        first.change_id == second.change_id,
        first.parents == second.parents,
        first.author == second.author,
        first.committer == second.committer,
        forall|k: int|
            0 <= k < first.parents.len() ==> resolve(first_map, #[trigger] first.parents[k])
                == resolve(second_map, first.parents[k]),
    ensures
        stamp_spec(first, trailers, first_map) == stamp_spec(second, trailers, second_map),
        stamp_spec(first, trailers, first_map) matches Stamp::Rewrite(written) ==> {
            &&& written.author == first.author
            &&& written.committer == first.committer
            &&& written.description == stamped_description(
                first.description,
                trailers.len() > 0,
                first.change_id,
            )
        },
{
    assert(remapped_parents(first_map, first.parents) =~= remapped_parents(
        second_map,
        second.parents,
    ));
}

/// Asking again changes nothing: a step that asks for a commit to be
/// written leaves the upload where the same step asks for the same commit.
pub proof fn lemma_write_request_repeats(s: SessionView)
    requires
        s.well_formed(),
        step_spec(s).1 is Write,
    ensures
        step_spec(step_spec(s).0).1 == step_spec(s).1,
        step_spec(step_spec(s).0).0 == step_spec(s).0,
{
}

/// A commit whose description holds exactly one tracking identifier is kept:
/// nothing is written for it and the mapping sends it to itself. A warning
/// is given exactly if the identifier does not have the expected shape.
pub proof fn lemma_single_change_id_is_kept(s: SessionView)
    requires
        s.well_formed(),
        s.phase == Phase::Stamping,
        s.remaining > 0,
        change_id_values(description_trailers(s.current().description)).len() == 1,
    ensures
        step_spec(s).1 matches StepView::Keep { commit, warning } && commit == s.current().id && (
        warning is None <==> well_formed_change_id(
            change_id_values(description_trailers(s.current().description))[0],
        )),
        step_spec(s).0.map.contains_key(s.current().id),
        step_spec(s).0.map[s.current().id] == s.current().id,
        step_spec(s).0.remaining == s.remaining - 1,
{
}

/// A commit whose description holds two or more tracking identifiers ends
/// the upload: the step fails with an error that names the commit, nothing
/// is written for it and the mapping stays as it is.
pub proof fn lemma_multiple_change_ids_fail(s: SessionView)
    requires
        s.well_formed(),
        s.phase == Phase::Stamping,
        s.remaining > 0,
        change_id_values(description_trailers(s.current().description)).len() >= 2,
    ensures
        step_spec(s).1 == StepView::Fail(UploadErrorView::MultipleChangeIds(s.current().id)),
        step_spec(s).0.phase == Phase::Finished,
        step_spec(s).0.map == s.map,
        step_spec(s).0.remaining == s.remaining,
{
}

/// Once an upload is over, it stays over: no step asks for a commit to be
/// written or for a push, and a report of a written commit changes nothing.
pub proof fn lemma_finished_is_final(s: SessionView, new_id: Seq<u8>)
    requires
        s.phase == Phase::Finished,
    ensures
        step_spec(s) == (s, StepView::Done),
        written_spec(s, new_id) == s,
{
}

/// The commit written for a child names the rewritten parent: where the
/// commit `parent` is stamped and written as `parent_new`, and the commit
/// stamped next has `parent` among its parents and no tracking identifier
/// either, the commit written for it has `parent_new` in that place.
pub proof fn lemma_child_follows_rewritten_parent(s: SessionView, parent_new: Seq<u8>, k: int)
    requires
        s.well_formed(),
        s.phase == Phase::Stamping,
        s.remaining >= 2,
        change_id_values(description_trailers(s.current().description)).len() == 0,
        change_id_values(
            description_trailers(s.chain[s.remaining - 2].description),
        ).len() == 0,
        0 <= k < s.chain[s.remaining - 2].parents.len(),
        s.chain[s.remaining - 2].parents[k] == s.current().id,
    ensures
        step_spec(s).1 is Write,
        ({
            let after_parent = written_spec(step_spec(s).0, parent_new);
            &&& after_parent.well_formed()
            &&& step_spec(after_parent).1 matches StepView::Write { commit, new_commit }
            &&& commit == s.chain[s.remaining - 2].id
            &&& new_commit.parents.len() == s.chain[s.remaining - 2].parents.len()
            &&& new_commit.parents[k] == parent_new
        }),
{
    let asked = step_spec(s).0;
    let after_parent = written_spec(asked, parent_new);
    lemma_step_keeps_well_formed(s);
    lemma_written_keeps_well_formed(asked, parent_new);
    assert(after_parent.current() == s.chain[s.remaining - 2]);
    assert(after_parent.map.contains_key(s.current().id));
}

/// In a commit that is written, every parent that was stamped before is
/// replaced by what the mapping holds for it, and every other parent stays.
pub proof fn lemma_parents_follow_mapping(s: SessionView, k: int)
    requires
        s.well_formed(),
        step_spec(s).1 is Write,
        0 <= k < s.current().parents.len(),
    ensures
        step_spec(s).1 matches StepView::Write { commit, new_commit } && new_commit.parents.len()
            == s.current().parents.len() && new_commit.parents[k] == (if s.map.contains_key(
            s.current().parents[k],
        ) {
            s.map[s.current().parents[k]]
        } else {
            s.current().parents[k]
        }),
{
}

/// A step keeps a well-formed state well formed.
pub proof fn lemma_step_keeps_well_formed(s: SessionView)
    requires
        s.well_formed(),
    ensures
        step_spec(s).0.well_formed(),
{
    let after = step_spec(s).0;
    let ids = chain_ids(s.chain);
    if s.phase == Phase::Stamping && s.remaining > 0 && s.next_stamp() is Keep {
        assert(ids[s.remaining - 1] == s.current().id);
        assert forall|id: Seq<u8>| after.map.contains_key(id) <==> after.stamped_ids().contains(
            id,
        ) by {
            lemma_one_more_stamped(ids, s.remaining as int, id);
            assert(s.map.contains_key(id) <==> s.stamped_ids().contains(id));
        }
    } else {
        assert(after.stamped_ids() == s.stamped_ids());
        assert forall|id: Seq<u8>| after.map.contains_key(id) <==> after.stamped_ids().contains(
            id,
        ) by {
            assert(s.map.contains_key(id) <==> s.stamped_ids().contains(id));
        }
    }
}

/// A report of a written commit keeps a well-formed state well formed.
pub proof fn lemma_written_keeps_well_formed(s: SessionView, new_id: Seq<u8>)
    requires
        s.well_formed(),
    ensures
        written_spec(s, new_id).well_formed(),
{
    let after = written_spec(s, new_id);
    let ids = chain_ids(s.chain);
    if s.phase == Phase::Stamping && s.awaiting_write && s.remaining > 0 {
        assert(ids[s.remaining - 1] == s.current().id);
        assert forall|id: Seq<u8>| after.map.contains_key(id) <==> after.stamped_ids().contains(
            id,
        ) by {
            lemma_one_more_stamped(ids, s.remaining as int, id);
            assert(s.map.contains_key(id) <==> s.stamped_ids().contains(id));
        }
    }
}

/// The state in which stamping ends when it starts from `s` and every
/// commit that is asked for is written and gets the identifier that `store`
/// gives to its content.
pub open spec fn stamp_all(s: SessionView, store: spec_fn(NewCommitView) -> Seq<u8>) -> SessionView
    decreases s.remaining,
{
    if s.phase != Phase::Stamping || s.remaining == 0 {
        s
    } else {
        match step_spec(s).1 {
            StepView::Write { new_commit, .. } => stamp_all(
                written_spec(step_spec(s).0, store(new_commit)),
                store,
            ),
            StepView::Keep { .. } => stamp_all(step_spec(s).0, store),
            _ => step_spec(s).0,
        }
    }
}

/// A parent that belongs to the chain stands after its child.
pub open spec fn parents_come_later(chain: Seq<CommitView>) -> bool {
    forall|child: int, parent: int, k: int|
        0 <= child < chain.len() && 0 <= parent < chain.len() && 0 <= k
            < chain[child].parents.len() && #[trigger] chain[child].parents[k]
            == #[trigger] chain[parent].id ==> child < parent
}

/// How many tracking identifiers the description of a commit holds.
pub open spec fn change_id_count(commit: CommitView) -> nat {
    change_id_values(description_trailers(commit.description)).len()
}

/// What the mapping is to hold for `commit`: the commit itself where its
/// description holds a tracking identifier, else the identifier that `store`
/// gives to the stamped commit, whose parents are taken through `map`.
pub open spec fn settled_entry(
    commit: CommitView,
    map: Map<Seq<u8>, Seq<u8>>,
    store: spec_fn(NewCommitView) -> Seq<u8>,
) -> Seq<u8> {
    match stamp_spec(commit, description_trailers(commit.description), map) {
        Stamp::Rewrite(new_commit) => store(new_commit),
        _ => commit.id,
    }
}

/// Every commit stamped so far has the entry that [`settled_entry`] names.
pub open spec fn entries_settled(s: SessionView, store: spec_fn(NewCommitView) -> Seq<u8>) -> bool {
    forall|i: int|
        s.remaining <= i < s.chain.len() ==> s.map.contains_key((#[trigger] s.chain[i]).id)
            && s.map[s.chain[i].id] == settled_entry(s.chain[i], s.map, store)
}

/// One more entry, for the commit stamped next, leaves the entries of the
/// commits stamped before as they are and as they are to be.
proof fn lemma_entry_settles(
    s: SessionView,
    store: spec_fn(NewCommitView) -> Seq<u8>,
    value: Seq<u8>,
    after: SessionView,
)
    requires
        s.well_formed(),
        s.remaining > 0,
        chain_ids(s.chain).no_duplicates(),
        parents_come_later(s.chain),
        entries_settled(s, store),
        after.chain == s.chain,
        after.remaining == s.remaining - 1,
        after.map == s.map.insert(s.current().id, value),
        value == settled_entry(s.current(), s.map, store),
    ensures
        entries_settled(after, store),
{
    let ids = chain_ids(s.chain);
    let r = s.remaining as int;
    let c = s.current();
    assert forall|i: int| after.remaining <= i < after.chain.len() implies after.map.contains_key(
        (#[trigger] after.chain[i]).id,
    ) && after.map[after.chain[i].id] == settled_entry(after.chain[i], after.map, store) by {
        let ci = s.chain[i];
        assert forall|k: int| 0 <= k < ci.parents.len() implies resolve(
            after.map,
            #[trigger] ci.parents[k],
        ) == resolve(s.map, ci.parents[k]) by {
            if ci.parents[k] == c.id {
                assert(s.chain[i].parents[k] == s.chain[r - 1].id);
            }
        }
        assert(remapped_parents(after.map, ci.parents) =~= remapped_parents(s.map, ci.parents));
        if i >= r {
            assert(ids[i] == ci.id && ids[r - 1] == c.id);
        }
    }
}

/// Stamping a whole chain. The chain holds no commit twice and every parent
/// in it stands after its child. Then stamping fails exactly if some commit
/// that was still to stamp holds several tracking identifiers. Where it
/// does not fail, every commit of the chain is a key of the mapping: a
/// commit with a tracking identifier leads to itself; a commit without one
/// leads to the identifier of the commit written for it, which has the
/// stamped description, the author and committer of the original, and for
/// parents what the finished mapping holds for the original's parents.
pub proof fn lemma_stamping_settles_every_commit(
    s: SessionView,
    store: spec_fn(NewCommitView) -> Seq<u8>,
)
    requires
        s.well_formed(),
        s.phase == Phase::Stamping,
        chain_ids(s.chain).no_duplicates(),
        parents_come_later(s.chain),
        entries_settled(s, store),
    ensures
        stamp_all(s, store).well_formed(),
        stamp_all(s, store).chain == s.chain,
        stamp_all(s, store).heads == s.heads,
        stamp_all(s, store).next_head == s.next_head,
        stamp_all(s, store).dry_run == s.dry_run,
        stamp_all(s, store).remote == s.remote,
        stamp_all(s, store).branch == s.branch,
        stamp_all(s, store).phase != Phase::Pushing,
        stamp_all(s, store).phase == Phase::Finished <==> exists|i: int|
            0 <= i < s.remaining && change_id_count(#[trigger] s.chain[i]) >= 2,
        stamp_all(s, store).phase == Phase::Stamping ==> stamp_all(s, store).remaining == 0
            && entries_settled(stamp_all(s, store), store),
    decreases s.remaining,
{
    if s.remaining > 0 {
        let c = s.current();
        let asked = step_spec(s).0;
        lemma_step_keeps_well_formed(s);
        match step_spec(s).1 {
            StepView::Write { new_commit, .. } => {
                let after = written_spec(asked, store(new_commit));
                lemma_written_keeps_well_formed(asked, store(new_commit));
                lemma_entry_settles(s, store, store(new_commit), after);
                lemma_stamping_settles_every_commit(after, store);
                lemma_failure_among(s, after);
            },
            StepView::Keep { .. } => {
                lemma_entry_settles(s, store, c.id, asked);
                lemma_stamping_settles_every_commit(asked, store);
                lemma_failure_among(s, asked);
            },
            _ => {
                assert(change_id_count(s.chain[s.remaining - 1]) >= 2);
            },
        }
    }
}

/// A commit with several tracking identifiers is among those still to stamp
/// exactly if it was among them one commit earlier, given that this one
/// commit had fewer than two.
proof fn lemma_failure_among(s: SessionView, after: SessionView)
    requires
        s.remaining > 0,
        s.remaining <= s.chain.len(),
        after.chain == s.chain,
        after.remaining == s.remaining - 1,
        change_id_count(s.current()) < 2,
    ensures
        (exists|i: int| 0 <= i < s.remaining && change_id_count(#[trigger] s.chain[i]) >= 2) <==> (
        exists|i: int| 0 <= i < after.remaining && change_id_count(#[trigger] after.chain[i]) >= 2),
{
    if exists|i: int| 0 <= i < s.remaining && change_id_count(#[trigger] s.chain[i]) >= 2 {
        let i = choose|i: int| 0 <= i < s.remaining && change_id_count(#[trigger] s.chain[i]) >= 2;
        assert(0 <= i < after.remaining && change_id_count(after.chain[i]) >= 2);
    }
    if exists|i: int| 0 <= i < after.remaining && change_id_count(#[trigger] after.chain[i]) >= 2 {
        let i = choose|i: int|
            0 <= i < after.remaining && change_id_count(#[trigger] after.chain[i]) >= 2;
        assert(0 <= i < s.remaining && change_id_count(s.chain[i]) >= 2);
    }
}

/// In a chain that was stamped without failure, the commit written for a
/// child names the commit written for its parent: where neither holds a
/// tracking identifier, the entry of the child is the identifier of a
/// commit whose parent, in the place of the original parent, is the entry
/// of the parent.
pub proof fn lemma_stamped_child_names_stamped_parent(
    done: SessionView,
    store: spec_fn(NewCommitView) -> Seq<u8>,
    child: int,
    parent: int,
    k: int,
)
    requires
        done.remaining == 0,
        entries_settled(done, store),
        0 <= child < done.chain.len(),
        0 <= parent < done.chain.len(),
        0 <= k < done.chain[child].parents.len(),
        done.chain[child].parents[k] == done.chain[parent].id,
        change_id_count(done.chain[child]) == 0,
    ensures
        stamp_spec(
            done.chain[child],
            description_trailers(done.chain[child].description),
            done.map,
        ) matches Stamp::Rewrite(written) && done.map[done.chain[child].id] == store(written)
            && written.parents[k] == done.map[done.chain[parent].id],
        change_id_count(done.chain[parent]) == 1 ==> done.map[done.chain[parent].id]
            == done.chain[parent].id,
{
    assert(done.map.contains_key(done.chain[parent].id));
    assert(done.map.contains_key(done.chain[child].id));
}

/// An empty selection starts nothing: no upload comes into being, so no
/// commit is written and nothing is pushed.
pub proof fn lemma_empty_selection_starts_nothing(
    args: UploadArgsView,
    root: Seq<u8>,
    facts: RepoFactsView,
)
    ensures
        start_spec(args, Seq::empty(), root, facts) == StartView::Nothing,
{
}

/// A selection that holds the root commit is refused, alone or among
/// others: no upload comes into being, so no commit is written and nothing
/// is pushed.
pub proof fn lemma_root_selection_is_refused(
    args: UploadArgsView,
    selection: Seq<Seq<u8>>,
    root: Seq<u8>,
    facts: RepoFactsView,
)
    requires
        selection.contains(root),
    ensures
        start_spec(args, selection, root, facts) == StartView::Failed(UploadErrorView::RootCommit),
{
}

/// The steps of the pushing phase from `s` on, up to the step that ends the
/// upload.
pub open spec fn push_steps(s: SessionView) -> Seq<StepView>
    decreases s.heads.len() - s.next_head,
{
    if s.phase != Phase::Pushing || s.next_head >= s.heads.len() {
        Seq::empty()
    } else {
        seq![step_spec(s).1] + push_steps(step_spec(s).0)
    }
}

/// What is asked for when the head `head` is announced.
pub open spec fn push_step_for(s: SessionView, head: Seq<u8>) -> StepView {
    StepView::Push {
        head,
        progress: progress_prefix(s.dry_run),
        update: if s.dry_run {
            None
        } else {
            Some(review_update(s.branch, s.map[head]))
        },
    }
}

/// Every head is announced exactly once, in order. Outside a dry run each
/// announcement comes with one update, which proposes the rewritten head
/// for the review ref of the target branch and asks for no check of the
/// ref's current value. In a dry run no announcement comes with an update.
pub proof fn lemma_one_push_step_per_head(s: SessionView)
    requires
        s.well_formed(),
        s.phase == Phase::Pushing,
    ensures
        push_steps(s).len() == s.heads.len() - s.next_head,
        forall|i: int|
            0 <= i < s.heads.len() - s.next_head ==> #[trigger] push_steps(s)[i] == push_step_for(
                s,
                s.heads[s.next_head + i],
            ),
    decreases s.heads.len() - s.next_head,
{
    if s.next_head < s.heads.len() {
        let after = step_spec(s).0;
        lemma_step_keeps_well_formed(s);
        lemma_one_push_step_per_head(after);
        assert forall|i: int| 0 <= i < s.heads.len() - s.next_head implies #[trigger] push_steps(
            s,
        )[i] == push_step_for(s, s.heads[s.next_head + i]) by {
            if i > 0 {
                assert(push_steps(s)[i] == push_steps(after)[i - 1]);
                assert(push_steps(after)[i - 1] == push_step_for(
                    after,
                    after.heads[after.next_head + (i - 1)],
                ));
            }
        }
    }
}

/// In a dry run the pushing phase has one step per head and none of them
/// asks for an update of the remote.
pub proof fn lemma_dry_run_pushes_nothing(s: SessionView)
    requires
        s.well_formed(),
        s.phase == Phase::Pushing,
        s.dry_run,
    ensures
        push_steps(s).len() == s.heads.len() - s.next_head,
        forall|i: int|
            0 <= i < push_steps(s).len() ==> (#[trigger] push_steps(s)[i] matches StepView::Push {
                update,
                ..
            } && update is None),
{
    lemma_one_push_step_per_head(s);
}

/// In a dry run no step of an upload, in whatever phase, asks for an update
/// of the remote.
pub proof fn lemma_dry_run_step_has_no_update(s: SessionView)
    requires
        s.dry_run,
    ensures
        step_spec(s).1 matches StepView::Push { update, .. } ==> update is None,
        step_spec(s).0.dry_run,
{
}

/// An upload from its start to its last push. The chain holds no commit
/// twice, every parent in it stands after its child, every head belongs to
/// it, and no commit holds several tracking identifiers. Then stamping ends
/// with an announcement of the number of heads, and every head is announced
/// once, in order. Outside a dry run the announcement of a head comes with
/// one update: it names the review ref of the target branch, asks for no
/// check of the ref's current value, and proposes what the mapping holds for
/// the head, which is the head itself where it carries a tracking identifier
/// and else the identifier of the commit written for it. In a dry run no
/// announcement comes with an update.
pub proof fn lemma_upload_pushes_stamped_heads(
    args: UploadArgsView,
    selection: Seq<Seq<u8>>,
    root: Seq<u8>,
    facts: RepoFactsView,
    store: spec_fn(NewCommitView) -> Seq<u8>,
    s: SessionView,
    i: int,
)
    requires
        start_spec(args, selection, root, facts) == StartView::Ready(s),
        heads_within(facts.to_upload, facts.heads),
        chain_ids(facts.to_upload).no_duplicates(),
        parents_come_later(facts.to_upload),
        forall|j: int| 0 <= j < facts.to_upload.len() ==> change_id_count(
            #[trigger] facts.to_upload[j],
        ) < 2,
        0 <= i < facts.heads.len(),
    ensures
        stamp_all(s, store).phase == Phase::Stamping,
        step_spec(stamp_all(s, store)).1 == (StepView::Announce {
            message: announcement(facts.heads.len(), s.remote, s.branch),
        }),
        ({
            let done = stamp_all(s, store);
            let pushing = step_spec(done).0;
            &&& push_steps(pushing).len() == facts.heads.len()
            &&& push_steps(pushing)[i] == (StepView::Push {
                head: facts.heads[i],
                progress: progress_prefix(args.dry_run),
                update: if args.dry_run {
                    None
                } else {
                    Some(review_update(s.branch, done.map[facts.heads[i]]))
                },
            })
            &&& exists|j: int|
                0 <= j < facts.to_upload.len() && (#[trigger] facts.to_upload[j]).id
                    == facts.heads[i] && done.map[facts.heads[i]] == settled_entry(
                    facts.to_upload[j],
                    done.map,
                    store,
                )
        }),
{
    assert(s.stamped_ids().len() == 0);
    assert(s.well_formed());
    lemma_stamping_settles_every_commit(s, store);
    let done = stamp_all(s, store);
    assert(done.phase == Phase::Stamping) by {
        if done.phase == Phase::Finished {
            let j = choose|j: int| 0 <= j < s.remaining && change_id_count(#[trigger] s.chain[j]) >= 2;
            assert(change_id_count(facts.to_upload[j]) < 2);
        }
    }
    lemma_step_keeps_well_formed(done);
    let pushing = step_spec(done).0;
    lemma_one_push_step_per_head(pushing);
    assert(push_steps(pushing)[i] == push_step_for(pushing, pushing.heads[pushing.next_head + i]));
    let head = facts.heads[i];
    assert(chain_ids(facts.to_upload).contains(head));
    let j = choose|j: int|
        0 <= j < chain_ids(facts.to_upload).len() && chain_ids(facts.to_upload)[j] == head;
    assert(facts.to_upload[j].id == head);
    assert(done.map.contains_key(done.chain[j].id));
}

} // verus!
