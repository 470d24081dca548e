//! What the creation workflow does to the two stores.
//!
//! The stores are modelled as plain mathematical values, together with the
//! effect that each action has on them when it succeeds and when it fails. The
//! laws below then follow the workflow through every way its actions can turn
//! out.
use crate::create::{ActionView, CreateWorkflowView, OutcomeView, Stage};
use crate::post::NewPostView;
use crate::response::ErrorKindView;
use vstd::prelude::*;

verus! {

/// The datastore and the blob store as the workflow sees them.
pub struct World {
    /// The committed posts, oldest first.
    pub posts: Seq<NewPostView>,
    /// The posts written inside the open transaction.
    pub staged: Seq<NewPostView>,
    /// The places taken in the permanent blob store.
    pub blobs: Set<Seq<char>>,
    /// The transient uploads that wait to be picked up.
    pub uploads: Set<Seq<char>>,
}

impl World {
    /// The stores after an action that went as `outcome` says.
    ///
    /// An action that fails changes nothing, with one exception: a transaction
    /// that fails to commit or to roll back is gone, and what was written in it
    /// never becomes visible.
    pub open spec fn after(self, action: ActionView, outcome: OutcomeView) -> World {
        match (action, outcome) {
            (ActionView::BeginTransaction, OutcomeView::Succeeded) => World {
                staged: Seq::empty(),
                ..self
            },
            (ActionView::CopyBlob { from, to }, OutcomeView::Succeeded) => World {
                blobs: self.blobs.insert(to),
                ..self
            },
            (ActionView::InsertPost(record), OutcomeView::Succeeded) => World {
                staged: self.staged.push(record),
                ..self
            },
            (ActionView::Commit, OutcomeView::Succeeded) => World {
                posts: self.posts + self.staged,
                staged: Seq::empty(),
                ..self
            },
            (ActionView::Commit, OutcomeView::Failed(_)) => World { staged: Seq::empty(), ..self },
            (ActionView::Rollback, _) => World { staged: Seq::empty(), ..self },
            (ActionView::DeleteBlob(path), OutcomeView::Succeeded) => World {
                blobs: self.blobs.remove(path),
                ..self
            },
            (ActionView::DeleteUpload(path), OutcomeView::Succeeded) => World {
                uploads: self.uploads.remove(path),
                ..self
            },
            _ => self,
        }
    }
}

/// Runs a workflow against the stores: each outcome in turn is the fate of the
/// action that the workflow was waiting on.
pub open spec fn run(workflow: CreateWorkflowView, world: World, outcomes: Seq<OutcomeView>) -> (
    CreateWorkflowView,
    World,
)
    decreases outcomes.len(),
{
    if outcomes.len() == 0 {
        (workflow, world)
    } else {
        run(
            workflow.next(outcomes[0]),
            world.after(workflow.pending(), outcomes[0]),
            outcomes.drop_first(),
        )
    }
}

/// A finished workflow asks for nothing more, and the stores stay as they are.
pub proof fn lemma_finished_is_final(
    workflow: CreateWorkflowView,
    world: World,
    outcomes: Seq<OutcomeView>,
)
    requires
        workflow.stage is Finished,
    ensures
        run(workflow, world, outcomes) == (workflow, world),
    decreases outcomes.len(),
{
    if outcomes.len() > 0 {
        lemma_finished_is_final(workflow, world, outcomes.drop_first());
    }
}

/// The workflow and the stores after the first five outcomes.
spec fn after_five(start: CreateWorkflowView, world: World, outcomes: Seq<OutcomeView>) -> (
    CreateWorkflowView,
    World,
) {
    let w1 = start.next(outcomes[0]);
    let s1 = world.after(start.pending(), outcomes[0]);
    let w2 = w1.next(outcomes[1]);
    let s2 = s1.after(w1.pending(), outcomes[1]);
    let w3 = w2.next(outcomes[2]);
    let s3 = s2.after(w2.pending(), outcomes[2]);
    let w4 = w3.next(outcomes[3]);
    let s4 = s3.after(w3.pending(), outcomes[3]);
    let w5 = w4.next(outcomes[4]);
    let s5 = s4.after(w4.pending(), outcomes[4]);
    (w5, s5)
}

/// Five outcomes bring a fresh workflow to its end, whatever they are.
proof fn lemma_run_is_five_steps(
    start: CreateWorkflowView,
    world: World,
    outcomes: Seq<OutcomeView>,
)
    requires
        start.is_fresh(),
        outcomes.len() >= 5,
    ensures
        run(start, world, outcomes) == after_five(start, world, outcomes),
        after_five(start, world, outcomes).0.stage is Finished,
{
    let w1 = start.next(outcomes[0]);
    let s1 = world.after(start.pending(), outcomes[0]);
    let o1 = outcomes.drop_first();
    let w2 = w1.next(o1[0]);
    let s2 = s1.after(w1.pending(), o1[0]);
    let o2 = o1.drop_first();
    let w3 = w2.next(o2[0]);
    let s3 = s2.after(w2.pending(), o2[0]);
    let o3 = o2.drop_first();
    let w4 = w3.next(o3[0]);
    let s4 = s3.after(w3.pending(), o3[0]);
    let o4 = o3.drop_first();
    let w5 = w4.next(o4[0]);
    let s5 = s4.after(w4.pending(), o4[0]);
    let o5 = o4.drop_first();
    assert(o1[0] == outcomes[1] && o2[0] == outcomes[2] && o3[0] == outcomes[3] && o4[0]
        == outcomes[4]);
    assert(run(start, world, outcomes) == run(w1, s1, o1));
    assert(run(w1, s1, o1) == run(w2, s2, o2));
    assert(run(w2, s2, o2) == run(w3, s3, o3));
    assert(run(w3, s3, o3) == run(w4, s4, o4));
    assert(run(w4, s4, o4) == run(w5, s5, o5));
    assert(w5.stage is Finished);
    lemma_finished_is_final(w5, s5, o5);
}

/// A post and its blob appear together or not at all.
///
/// Take a fresh workflow and let its actions turn out in any way. It comes to
/// an end within five actions. If it ends in success, the stores hold exactly
/// one post more, the workflow's own, and its blob is in place. If it ends in
/// failure, the posts are as they were and the upload still waits; the blob
/// store is as it was if the copy never succeeded, and otherwise the blob has
/// been deleted again, or, where the deletion failed, the workflow says so.
pub proof fn lemma_create_is_all_or_nothing(
    start: CreateWorkflowView,
    world: World,
    outcomes: Seq<OutcomeView>,
)
    requires
        start.is_fresh(),
        outcomes.len() >= 5,
    ensures
        ({
            let (end, after) = run(start, world, outcomes);
            &&& end.stage is Finished
            &&& end.record == start.record
            &&& match end.failure {
                None => {
                    &&& after.posts == world.posts.push(start.record)
                    &&& after.blobs == world.blobs.insert(start.blob())
                    &&& !end.orphaned
                },
                Some(_) => {
                    &&& after.posts == world.posts
                    &&& after.uploads == world.uploads
                    &&& after.blobs == if !end.blob_written {
                        world.blobs
                    } else if end.orphaned {
                        world.blobs.insert(start.blob())
                    } else {
                        world.blobs.remove(start.blob())
                    }
                },
            }
        }),
{
    lemma_run_is_five_steps(start, world, outcomes);
    let (end, after) = after_five(start, world, outcomes);
    assert(world.blobs.insert(start.blob()).remove(start.blob()) =~= world.blobs.remove(
        start.blob(),
    ));
    match end.failure {
        None => {
            assert(after.posts =~= world.posts.push(start.record));
        },
        Some(_) => {},
    }
}

/// The workflow ends in success exactly when opening the transaction, copying
/// the blob, writing the row and committing all succeed.
pub proof fn lemma_success_needs_every_step(
    start: CreateWorkflowView,
    world: World,
    outcomes: Seq<OutcomeView>,
)
    requires
        start.is_fresh(),
        outcomes.len() >= 5,
    ensures
        run(start, world, outcomes).0.failure is None <==> (outcomes[0] is Succeeded
            && outcomes[1] is Succeeded && outcomes[2] is Succeeded && outcomes[3] is Succeeded),
{
    lemma_run_is_five_steps(start, world, outcomes);
}

/// When the copy fails, no row is written: the workflow ends with a storage
/// error that carries the failure's detail, and posts, blobs and uploads are all
/// as they were.
pub proof fn lemma_failed_copy_changes_nothing(
    start: CreateWorkflowView,
    world: World,
    outcomes: Seq<OutcomeView>,
)
    requires
        start.is_fresh(),
        outcomes.len() >= 5,
        outcomes[0] is Succeeded,
        outcomes[1] is Failed,
    ensures
        ({
            let (end, after) = run(start, world, outcomes);
            &&& end.failure == Some(ErrorKindView::StorageWriteError(outcomes[1]->Failed_0))
            &&& after.posts == world.posts
            &&& after.blobs == world.blobs
            &&& after.uploads == world.uploads
        }),
{
    lemma_run_is_five_steps(start, world, outcomes);
}

/// When the datastore fails after the blob was copied, be it on writing the row
/// or on committing, no row exists afterwards, the failure is a persistence
/// error, and the workflow has asked for the blob's deletion: the blob is gone
/// if the deletion succeeded, and is reported as an orphan if it did not.
pub proof fn lemma_failed_write_is_compensated(
    start: CreateWorkflowView,
    world: World,
    outcomes: Seq<OutcomeView>,
)
    requires
        start.is_fresh(),
        outcomes.len() >= 5,
        outcomes[0] is Succeeded,
        outcomes[1] is Succeeded,
        outcomes[2] is Failed || outcomes[3] is Failed,
    ensures
        ({
            let (end, after) = run(start, world, outcomes);
            let detail = if outcomes[2] is Failed {
                outcomes[2]->Failed_0
            } else {
                outcomes[3]->Failed_0
            };
            &&& end.failure == Some(ErrorKindView::PersistenceError(detail))
            &&& after.posts == world.posts
            &&& outcomes[4] is Succeeded ==> !after.blobs.contains(start.blob())
                && end.pending() == (ActionView::Finish { failure: end.failure, orphan: None })
            &&& outcomes[4] is Failed ==> end.pending() == (ActionView::Finish {
                failure: end.failure,
                orphan: Some(start.blob()),
            })
        }),
{
    lemma_run_is_five_steps(start, world, outcomes);
}

} // verus!
