//! Undo and redo of scene edits: two bounded stacks of scene snapshots, and
//! the rule that turns a pointer drag into a single history entry.
use vstd::prelude::*;

verus! {

/// Snapshots kept on each history stack.
pub const SCENE_HISTORY_LIMIT: usize = 64;

/// `stack` with `item` pushed on top; a full stack first drops its oldest
/// entry.
pub open spec fn bounded_push<T>(stack: Seq<T>, item: T) -> Seq<T> {
    if stack.len() >= SCENE_HISTORY_LIMIT {
        stack.drop_first().push(item)
    } else {
        stack.push(item)
    }
}

/// Pushes `item`, dropping the oldest entry of a full stack.
pub fn push_bounded<T>(stack: &mut Vec<T>, item: T)
    requires
        old(stack)@.len() <= SCENE_HISTORY_LIMIT,
    ensures
        final(stack)@ == bounded_push(old(stack)@, item),
        final(stack)@.len() <= SCENE_HISTORY_LIMIT,
{
    if stack.len() == SCENE_HISTORY_LIMIT {
        stack.remove(0);
    }
    stack.push(item);
}

/// While the pointer is down, the first changing frame of a drag parks its
/// starting snapshot in `pending` and nothing is committed; on release the
/// parked snapshot (or, for a click without a drag, `before`) is the
/// baseline to commit.
pub fn history_baseline_after_pointer<T>(
    pending: &mut Option<T>,
    before: T,
    changed: bool,
    pointer_down: bool,
) -> (baseline: Option<T>)
    ensures
        pointer_down ==> baseline is None && *final(pending) == (if changed && *old(pending) is None {
            Some(before)
        } else {
            *old(pending)
        }),
        !pointer_down ==> *final(pending) is None && baseline == Some(
            match *old(pending) {
                Some(parked) => parked,
                None => before,
            },
        ),
{
    if pointer_down {
        if changed && pending.is_none() {
            *pending = Some(before);
        }
        None
    } else {
        match pending.take() {
            Some(parked) => Some(parked),
            None => Some(before),
        }
    }
}

/// Mathematical content of a [`SceneHistory`]: the undo stack, the redo
/// stack (top last) and whether the next commit is skipped.
pub struct HistoryModel<T> {
    pub undo: Seq<T>,
    pub redo: Seq<T>,
    pub skip_next_commit: bool,
}

/// Undo and redo stacks of scene snapshots.
#[derive(Debug)]
pub struct SceneHistory<T> {
    undo: Vec<T>,
    redo: Vec<T>,
    skip_next_commit: bool,
}

impl<T> View for SceneHistory<T> {
    type V = HistoryModel<T>;

    closed spec fn view(&self) -> HistoryModel<T> {
        HistoryModel { undo: self.undo@, redo: self.redo@, skip_next_commit: self.skip_next_commit }
    }
}

/// Both stacks stay within the limit.
pub open spec fn history_wf<T>(m: HistoryModel<T>) -> bool {
    m.undo.len() <= SCENE_HISTORY_LIMIT && m.redo.len() <= SCENE_HISTORY_LIMIT
}

/// The history after committing an edit that started at `before`: nothing
/// when the edit is the one an undo or redo just made, or when nothing
/// changed; otherwise `before` becomes undoable and the redo stack empties.
pub open spec fn committed<T>(m: HistoryModel<T>, before: T, changed: bool) -> HistoryModel<T> {
    if m.skip_next_commit {
        HistoryModel { skip_next_commit: false, ..m }
    } else if !changed {
        m
    } else {
        HistoryModel {
            undo: bounded_push(m.undo, before),
            redo: Seq::empty(),
            skip_next_commit: false,
        }
    }
}

/// The history after undoing from scene `current`, and the snapshot to
/// restore.
pub open spec fn undone<T>(m: HistoryModel<T>, current: T) -> (HistoryModel<T>, Option<T>) {
    if m.undo.len() == 0 {
        (m, None)
    } else {
        (
            HistoryModel {
                undo: m.undo.drop_last(),
                redo: bounded_push(m.redo, current),
                skip_next_commit: true,
            },
            Some(m.undo.last()),
        )
    }
}

/// The history after redoing from scene `current`, and the snapshot to
/// restore.
pub open spec fn redone<T>(m: HistoryModel<T>, current: T) -> (HistoryModel<T>, Option<T>) {
    if m.redo.len() == 0 {
        (m, None)
    } else {
        (
            HistoryModel {
                undo: bounded_push(m.undo, current),
                redo: m.redo.drop_last(),
                skip_next_commit: true,
            },
            Some(m.redo.last()),
        )
    }
}

impl<T> SceneHistory<T> {
    /// An empty history.
    pub fn new() -> (h: Self)
        ensures
            h@.undo.len() == 0,
            h@.redo.len() == 0,
            !h@.skip_next_commit,
            history_wf(h@),
    {
        SceneHistory { undo: Vec::new(), redo: Vec::new(), skip_next_commit: false }
    }

    /// Snapshots that can be undone.
    pub fn undo_len(&self) -> (n: usize)
        ensures
            n == self@.undo.len(),
    {
        self.undo.len()
    }

    /// Snapshots that can be redone.
    pub fn redo_len(&self) -> (n: usize)
        ensures
            n == self@.redo.len(),
    {
        self.redo.len()
    }

    /// Records an edit that started at `before`; `changed` says whether the
    /// scene content differs from `before`.
    pub fn commit(&mut self, before: T, changed: bool)
        requires
            history_wf(old(self)@),
        ensures
            final(self)@ == committed(old(self)@, before, changed),
            history_wf(final(self)@),
    {
        if self.skip_next_commit {
            self.skip_next_commit = false;
            return;
        }
        if !changed {
            return;
        }
        push_bounded(&mut self.undo, before);
        self.redo.clear();
    }

    /// Steps back from scene `current`: returns the snapshot to restore and
    /// keeps `current` for redo, or `None` with nothing to undo.
    pub fn undo(&mut self, current: T) -> (previous: Option<T>)
        requires
            history_wf(old(self)@),
        ensures
            (final(self)@, previous) == undone(old(self)@, current),
            history_wf(final(self)@),
    {
        match self.undo.pop() {
            None => None,
            Some(previous) => {
                push_bounded(&mut self.redo, current);
                self.skip_next_commit = true;
                Some(previous)
            },
        }
    }

    /// Steps forward from scene `current`: returns the snapshot to restore
    /// and keeps `current` for undo, or `None` with nothing to redo.
    pub fn redo(&mut self, current: T) -> (next: Option<T>)
        requires
            history_wf(old(self)@),
        ensures
            (final(self)@, next) == redone(old(self)@, current),
            history_wf(final(self)@),
    {
        match self.redo.pop() {
            None => None,
            Some(next) => {
                push_bounded(&mut self.undo, current);
                self.skip_next_commit = true;
                Some(next)
            },
        }
    }
}

/// Redo undoes an undo: undoing from `current` and redoing from the
/// restored snapshot gives `current` back and leaves the undo stack as it
/// was; the redo stack is as it was too unless it was full.
pub proof fn law_redo_reverses_undo<T>(m: HistoryModel<T>, current: T)
    requires
        history_wf(m),
        m.undo.len() > 0,
    ensures
        ({
            let (after_undo, previous) = undone(m, current);
            let (after_redo, next) = redone(after_undo, previous->0);
            &&& previous == Some(m.undo.last())
            &&& next == Some(current)
            &&& after_redo.undo == m.undo
            &&& m.redo.len() < SCENE_HISTORY_LIMIT ==> after_redo.redo == m.redo
        }),
{
    let (after_undo, previous) = undone(m, current);
    assert(after_undo.undo.len() < SCENE_HISTORY_LIMIT);
    assert(after_undo.undo.push(m.undo.last()) =~= m.undo);
    if m.redo.len() < SCENE_HISTORY_LIMIT {
        assert(after_undo.redo.drop_last() =~= m.redo);
    }
}

/// Undo reverses redo in the same way.
pub proof fn law_undo_reverses_redo<T>(m: HistoryModel<T>, current: T)
    requires
        history_wf(m),
        m.redo.len() > 0,
    ensures
        ({
            let (after_redo, next) = redone(m, current);
            let (after_undo, previous) = undone(after_redo, next->0);
            &&& next == Some(m.redo.last())
            &&& previous == Some(current)
            &&& after_undo.redo == m.redo
            &&& m.undo.len() < SCENE_HISTORY_LIMIT ==> after_undo.undo == m.undo
        }),
{
    let (after_redo, next) = redone(m, current);
    assert(after_redo.redo.push(m.redo.last()) =~= m.redo);
    if m.undo.len() < SCENE_HISTORY_LIMIT {
        assert(after_redo.undo.drop_last() =~= m.undo);
    }
}

/// The restoring step is never recorded as an edit of its own: the commit
/// that follows an undo leaves both stacks as the undo left them.
pub proof fn law_restore_is_not_an_edit<T>(m: HistoryModel<T>, current: T, before: T, changed: bool)
    requires
        history_wf(m),
        m.undo.len() > 0,
    ensures
        ({
            let (after_undo, _) = undone(m, current);
            let after_commit = committed(after_undo, before, changed);
            after_commit.undo == after_undo.undo && after_commit.redo == after_undo.redo
                && !after_commit.skip_next_commit
        }),
{
}

/// A new edit makes the redo stack empty and its starting snapshot the next
/// one to undo.
pub proof fn law_new_edit_discards_redo<T>(m: HistoryModel<T>, before: T)
    requires
        history_wf(m),
        !m.skip_next_commit,
    ensures
        committed(m, before, true).redo.len() == 0,
        committed(m, before, true).undo.last() == before,
{
}

/// Redo's restore is not an edit either: the commit that follows a redo
/// leaves both stacks as the redo left them, so what remains to redo is
/// still redoable.
pub proof fn law_redo_restore_is_not_an_edit<T>(
    m: HistoryModel<T>,
    current: T,
    before: T,
    changed: bool,
)
    requires
        history_wf(m),
        m.redo.len() > 0,
    ensures
        ({
            let (after_redo, _) = redone(m, current);
            let after_commit = committed(after_redo, before, changed);
            &&& after_commit.undo == after_redo.undo
            &&& after_commit.redo == after_redo.redo
            &&& after_commit.redo == m.redo.drop_last()
            &&& !after_commit.skip_next_commit
        }),
{
}

} // verus!
