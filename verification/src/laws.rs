use vstd::prelude::*;
use crate::editor::{edit_allowed, edit_result, tick_spec, EditorView};
use crate::history::{spec_bounded_push, CAPACITY};
use crate::image_data::ImageView;
use crate::ops::Operation;

verus! {

/// Capacity invariant: whatever is pending, a tick leaves both history
/// stacks within capacity, so no sequence of ticks can ever grow either
/// stack past it.
pub proof fn lemma_tick_preserves_capacity(pre: EditorView)
    requires
        pre.history.len() <= CAPACITY,
        pre.redo.len() <= CAPACITY,
    ensures
        tick_spec(pre).0.history.len() <= CAPACITY,
        tick_spec(pre).0.redo.len() <= CAPACITY,
{
}

/// Undo inverse law: a tick that applies an accepted edit, followed by a
/// tick that processes Undo, restores the pre-edit image exactly — also
/// when the undo stack was at capacity, since a bounded push evicts only
/// the oldest entry, never the new snapshot — and parks the replaced
/// result on top of the redo stack.
pub proof fn lemma_edit_then_undo_restores(pre: EditorView, op: Operation)
    requires
        pre.image is Some,
        pre.pending_operation == Some(op),
        !op.is_meta(),
        edit_allowed(pre.image->0, op),
    ensures
        ({
            let mid = tick_spec(pre).0;
            let post = tick_spec(EditorView { pending_operation: Some(Operation::Undo), ..mid }).0;
            &&& post.image == pre.image
            &&& post.redo.len() > 0
            &&& post.redo.last() == edit_result(pre.image->0, op)
        }),
{
}

/// Redo round-trip law: an accepted edit, then Undo, then Redo ends with
/// the post-edit image again — the snapshot Undo parks on the redo stack
/// is the newest entry there, so the following Redo always finds it — and
/// Redo leaves the undo stack unchanged.
pub proof fn lemma_edit_undo_redo_round_trip(pre: EditorView, op: Operation)
    requires
        pre.image is Some,
        pre.pending_operation == Some(op),
        !op.is_meta(),
        edit_allowed(pre.image->0, op),
    ensures
        ({
            let mid = tick_spec(pre).0;
            let undone = tick_spec(
                EditorView { pending_operation: Some(Operation::Undo), ..mid },
            ).0;
            let post = tick_spec(
                EditorView { pending_operation: Some(Operation::Redo), ..undone },
            ).0;
            &&& post.image == Some(edit_result(pre.image->0, op))
            &&& post.history == undone.history
        }),
{
}

/// A whole sequence of snapshots pushed in order onto an initially empty
/// stack, as every recorded edit pushes.
pub open spec fn push_all(imgs: Seq<ImageView>) -> Seq<ImageView>
    decreases imgs.len(),
{
    if imgs.len() == 0 {
        Seq::empty()
    } else {
        spec_bounded_push(push_all(imgs.drop_last()), imgs.last())
    }
}

/// Eviction is oldest-first: pushing any sequence of snapshots onto an
/// empty stack keeps exactly the newest `CAPACITY` of them, in push order;
/// everything older has been evicted from the front.
pub proof fn lemma_eviction_oldest_first(imgs: Seq<ImageView>)
    ensures
        push_all(imgs) == if imgs.len() <= CAPACITY {
            imgs
        } else {
            imgs.skip(imgs.len() - CAPACITY)
        },
    decreases imgs.len(),
{
    if imgs.len() == 0 {
        assert(push_all(imgs) =~= imgs);
    } else {
        let front = imgs.drop_last();
        lemma_eviction_oldest_first(front);
        if front.len() < CAPACITY {
            assert(push_all(imgs) =~= imgs);
        } else {
            assert(push_all(imgs) =~= imgs.skip(imgs.len() - CAPACITY));
        }
    }
}

/// A tick processing Undo with an empty undo stack changes nothing: the
/// image and both stacks stay as they were.
pub proof fn lemma_undo_empty_noop(pre: EditorView)
    requires
        pre.image is Some,
        pre.pending_operation == Some(Operation::Undo),
        pre.history.len() == 0,
    ensures
        tick_spec(pre).0.image == pre.image,
        tick_spec(pre).0.history == pre.history,
        tick_spec(pre).0.redo == pre.redo,
        tick_spec(pre).1 is Ok,
{
}

/// A tick processing Redo with an empty redo stack changes nothing: the
/// image and both stacks stay as they were.
pub proof fn lemma_redo_empty_noop(pre: EditorView)
    requires
        pre.image is Some,
        pre.pending_operation == Some(Operation::Redo),
        pre.redo.len() == 0,
    ensures
        tick_spec(pre).0.image == pre.image,
        tick_spec(pre).0.history == pre.history,
        tick_spec(pre).0.redo == pre.redo,
        tick_spec(pre).1 is Ok,
{
}

/// Last request wins: submitting one operation and then another before any
/// tick makes that tick apply only the second; exactly one pre-edit
/// snapshot is recorded, the redo stack is untouched, and the slot is left
/// empty.
pub proof fn lemma_second_submission_wins(pre: EditorView, first: Operation, second: Operation)
    requires
        pre.image is Some,
        !second.is_meta(),
        edit_allowed(pre.image->0, second),
    ensures
        ({
            let after_first = EditorView { pending_operation: Some(first), ..pre };
            let submitted = EditorView { pending_operation: Some(second), ..after_first };
            let post = tick_spec(submitted).0;
            &&& post.image == Some(edit_result(pre.image->0, second))
            &&& post.history == spec_bounded_push(pre.history, pre.image->0)
            &&& post.redo == pre.redo
            &&& post.pending_operation is None
        }),
{
}

} // verus!
