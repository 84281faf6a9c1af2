//! A log of commands over a graph that it owns, with two cursors: `committed`,
//! the length of the active timeline, and `applied`, how many entries from the
//! start have been carried out on the graph.
use vstd::prelude::*;
use crate::commands::{Command, Operation};
use crate::graph::{lemma_without_absent, lemma_without_push_same, Graph, GraphView};

verus! {

/// Why `undo` or `redo` did nothing.
#[derive(Clone, Copy, Debug, PartialEq, Eq, Structural)]
pub enum HistoryError {
    /// Nothing is committed, or the latest committed entry is not yet applied.
    NothingToUndo,
    /// No undone entry is left to replay.
    NothingToRedo,
}

/// The abstract state of a history.
pub struct HistoryView {
    pub target: GraphView,
    pub log: Seq<Operation>,
    pub applied: nat,
    pub committed: nat,
}

/// Every reachable state: `applied <= committed <= log.len()`, and an undone
/// tail exists only while everything committed is applied.
pub open spec fn wf(h: HistoryView) -> bool {
    &&& h.applied <= h.committed <= h.log.len()
    &&& h.committed < h.log.len() ==> h.applied == h.committed
}

/// `g` after the entries `log[from..to]` have run in order.
pub open spec fn replay(log: Seq<Operation>, from: nat, to: nat, g: GraphView) -> GraphView
    decreases to,
{
    if to <= from {
        g
    } else {
        log[to - 1].forward(replay(log, from, (to - 1) as nat, g))
    }
}

/// The state after `append(op)`: the undone tail is dropped, `op` is committed
/// but not applied.
pub open spec fn append_spec(h: HistoryView, op: Operation) -> HistoryView {
    HistoryView {
        target: h.target,
        log: h.log.take(h.committed as int).push(op),
        applied: h.applied,
        committed: h.committed + 1,
    }
}

/// The state after `apply()`: every committed entry not yet applied has run.
pub open spec fn apply_spec(h: HistoryView) -> HistoryView {
    HistoryView {
        target: replay(h.log, h.applied, h.committed, h.target),
        log: h.log,
        applied: h.committed,
        committed: h.committed,
    }
}

/// Whether `undo()` succeeds.
pub open spec fn can_undo(h: HistoryView) -> bool {
    h.applied == h.committed && h.committed > 0
}

/// The state after a successful `undo()`: the latest entry is inverted and
/// stays in the log.
pub open spec fn undo_spec(h: HistoryView) -> HistoryView {
    HistoryView {
        target: h.log[h.committed - 1].backward(h.target),
        log: h.log,
        applied: (h.committed - 1) as nat,
        committed: (h.committed - 1) as nat,
    }
}

/// Whether `redo()` succeeds.
pub open spec fn can_redo(h: HistoryView) -> bool {
    h.committed < h.log.len()
}

/// The state after a successful `redo()`: the first undone entry runs again.
pub open spec fn redo_spec(h: HistoryView) -> HistoryView {
    HistoryView {
        target: h.log[h.committed as int].forward(h.target),
        log: h.log,
        applied: h.committed + 1,
        committed: h.committed + 1,
    }
}

/// `op` added the last element of its list in `g`, and no other element
/// there equals it: inverting `op` then takes out exactly that one.
pub open spec fn added_last_once(op: Operation, g: GraphView) -> bool {
    match op {
        Operation::AddNode(c) => {
            &&& g.nodes.len() > 0
            &&& g.nodes.last() == c.node
            &&& !g.nodes.drop_last().contains(c.node)
        },
        Operation::AddEdge(c) => {
            &&& g.edges.len() > 0
            &&& g.edges.last() == [c.node1, c.node2]
            &&& !g.edges.drop_last().contains([c.node1, c.node2])
        },
    }
}

/// Every step keeps a well-formed history well-formed: `append`, `apply`, and
/// `undo` and `redo` where they succeed.
pub proof fn lemma_steps_keep_wf(h: HistoryView, op: Operation)
    requires
        wf(h),
    ensures
        wf(append_spec(h, op)),
        wf(apply_spec(h)),
        can_undo(h) ==> wf(undo_spec(h)),
        can_redo(h) ==> wf(redo_spec(h)),
{
}

/// A second `apply()` right after a first one changes nothing.
pub proof fn lemma_apply_idempotent(h: HistoryView)
    requires
        wf(h),
    ensures
        apply_spec(apply_spec(h)) == apply_spec(h),
{
}

/// `undo()` followed by `redo()` gives back the state before the undo, graph
/// included, where the value that the latest entry added occurs once in the
/// graph, as its list's last element.
pub proof fn lemma_undo_redo_restores(h: HistoryView)
    requires
        wf(h),
        can_undo(h),
        added_last_once(h.log[h.committed - 1], h.target),
    ensures
        can_redo(undo_spec(h)),
        redo_spec(undo_spec(h)) == h,
{
    let op = h.log[h.committed - 1];
    let g = h.target;
    match op {
        Operation::AddNode(c) => {
            let p = g.nodes.drop_last();
            lemma_without_push_same(p, c.node);
            lemma_without_absent(p, c.node);
            assert(p.push(c.node) =~= g.nodes);
        },
        Operation::AddEdge(c) => {
            let e = [c.node1, c.node2];
            let p = g.edges.drop_last();
            lemma_without_push_same(p, e);
            lemma_without_absent(p, e);
            assert(p.push(e) =~= g.edges);
        },
    }
}

/// `append(op)` drops the undone tail: the log is the active timeline followed
/// by `op`, nothing is left to redo, and after `apply()` and `undo()` the one
/// entry to redo is `op`.
pub proof fn lemma_append_discards_future(h: HistoryView, op: Operation)
    requires
        wf(h),
    ensures
        append_spec(h, op).log == h.log.take(h.committed as int).push(op),
        !can_redo(append_spec(h, op)),
        can_undo(apply_spec(append_spec(h, op))),
        can_redo(undo_spec(apply_spec(append_spec(h, op)))),
        undo_spec(apply_spec(append_spec(h, op))).log[h.committed as int] == op,
{
}

/// The undo and redo history of a graph.
pub struct History {
    target: Graph,
    log: Vec<Operation>,
    applied: usize,
    committed: usize,
}

impl View for History {
    type V = HistoryView;

    closed spec fn view(&self) -> HistoryView {
        HistoryView {
            target: self.target@,
            log: self.log@,
            applied: self.applied as nat,
            committed: self.committed as nat,
        }
    }
}

impl History {
    pub open spec fn wf(&self) -> bool {
        wf(self@)
    }

    /// An empty history over `target`.
    pub fn new(target: Graph) -> (h: History)
        ensures
            h.wf(),
            h@.target == target@,
            h@.log == Seq::<Operation>::empty(),
            h@.applied == 0,
            h@.committed == 0,
    {
        History { target, log: Vec::new(), applied: 0, committed: 0 }
    }

    /// Drops the undone tail and commits `op` without running it.
    pub fn append(&mut self, op: Operation)
        requires
            old(self).wf(),
            old(self)@.committed < usize::MAX,
        ensures
            final(self).wf(),
            final(self)@ == append_spec(old(self)@, op),
    {
        self.log.truncate(self.committed);
        self.log.push(op);
        self.committed = self.log.len();
        assert(self.log@ =~= old(self).log@.take(old(self).committed as int).push(op));
    }

    /// Runs every committed entry that is not yet applied, in log order.
    pub fn apply(&mut self)
        requires
            old(self).wf(),
        ensures
            final(self).wf(),
            final(self)@ == apply_spec(old(self)@),
    {
        let ghost start = self.applied as nat;
        let ghost g0 = self.target@;
        let mut i: usize = self.applied;
        while i < self.committed
            invariant
                self.wf(),
                start == old(self).applied,
                g0 == old(self).target@,
                self.log@ == old(self).log@,
                self.committed == old(self).committed,
                self.applied == old(self).applied,
                start <= i <= self.committed,
                self.target@ == replay(self.log@, start, i as nat, g0),
            decreases self.committed - i,
        {
            let op: Operation = self.log[i];
            op.execute(&mut self.target);
            i = i + 1;
        }
        self.applied = self.committed;
    }

    /// Inverts the latest committed entry, which stays in the log as the first
    /// one to redo.
    pub fn undo(&mut self) -> (r: Result<(), HistoryError>)
        requires
            old(self).wf(),
        ensures
            final(self).wf(),
            can_undo(old(self)@) ==> r is Ok && final(self)@ == undo_spec(old(self)@),
            !can_undo(old(self)@) ==> r == Err::<(), HistoryError>(HistoryError::NothingToUndo)
                && final(self)@ == old(self)@,
    {
        if self.applied != self.committed || self.committed == 0 {
            return Err(HistoryError::NothingToUndo);
        }
        let op: Operation = self.log[self.committed - 1];
        op.rollback(&mut self.target);
        self.committed = self.committed - 1;
        self.applied = self.applied - 1;
        Ok(())
    }

    /// Runs again the first undone entry.
    pub fn redo(&mut self) -> (r: Result<(), HistoryError>)
        requires
            old(self).wf(),
        ensures
            final(self).wf(),
            can_redo(old(self)@) ==> r is Ok && final(self)@ == redo_spec(old(self)@),
            !can_redo(old(self)@) ==> r == Err::<(), HistoryError>(HistoryError::NothingToRedo)
                && final(self)@ == old(self)@,
    {
        if self.committed >= self.log.len() {
            return Err(HistoryError::NothingToRedo);
        }
        let op: Operation = self.log[self.committed];
        op.execute(&mut self.target);
        self.committed = self.committed + 1;
        self.applied = self.applied + 1;
        Ok(())
    }

    /// How many log entries belong to the active timeline.
    pub fn committed(&self) -> (r: usize)
        ensures
            r == self@.committed,
    {
        self.committed
    }

    /// How many log entries, from the start, have been carried out.
    pub fn applied(&self) -> (r: usize)
        ensures
            r == self@.applied,
    {
        self.applied
    }

    /// How many entries the log holds, the undone tail included.
    pub fn log_len(&self) -> (r: usize)
        ensures
            r == self@.log.len(),
    {
        self.log.len()
    }

    /// The graph.
    pub fn target(&self) -> (r: &Graph)
        ensures
            r@ == self@.target,
    {
        &self.target
    }
}

} // verus!
