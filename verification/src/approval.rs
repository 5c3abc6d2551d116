//! The approval gate: a queue of proposed commands under human review.
//!
//! It holds the commands in the order in which they came, and a cursor
//! on the one under review. Nothing runs from here: the approved commands
//! leave it as a batch, each tagged with the place it had in the queue,
//! so that results which come back in another order find their command.

use vstd::prelude::*;
use crate::models::{command_views, AgentCommand, AgentCommandView};

verus! {

/// A queue and its cursor, as mathematical values.
pub struct GateView {
    pub queue: Seq<AgentCommandView>,
    pub cursor: Option<int>,
}

/// A command's view with another approval flag.
pub open spec fn flagged(c: AgentCommandView, approved: bool) -> AgentCommandView {
    AgentCommandView { approved, ..c }
}

/// The greatest index of a queue of `len > 0` entries that is not above `i`.
pub open spec fn clamped(i: int, len: int) -> int {
    if i < 0 {
        0
    } else if i >= len {
        len - 1
    } else {
        i
    }
}

/// The commands of `queue` that are approved and not yet executed, each with
/// its index in the queue, in the order of the queue.
pub open spec fn approved_batch(queue: Seq<AgentCommandView>) -> Seq<(int, AgentCommandView)>
    decreases queue.len(),
{
    if queue.len() == 0 {
        Seq::empty()
    } else {
        let before = approved_batch(queue.drop_last());
        if queue.last().approved && !queue.last().executed {
            before.push((queue.len() - 1, queue.last()))
        } else {
            before
        }
    }
}

impl GateView {
    /// The cursor is set exactly when the queue holds something, and then it
    /// points into the queue.
    pub open spec fn wf(self) -> bool {
        match self.cursor {
            Some(c) => 0 <= c < self.queue.len(),
            None => self.queue.len() == 0,
        }
    }

    /// The entry under the cursor, if the cursor points at one.
    pub open spec fn current(self) -> Option<AgentCommandView> {
        match self.cursor {
            Some(c) => if 0 <= c < self.queue.len() {
                Some(self.queue[c])
            } else {
                None
            },
            None => None,
        }
    }

    /// After `batch` is appended: a cursor that was unset points at the first
    /// entry, if there is one.
    pub open spec fn added(self, batch: Seq<AgentCommandView>) -> GateView {
        let queue = self.queue + batch;
        GateView {
            queue,
            cursor: if self.cursor is None && queue.len() > 0 {
                Some(0)
            } else {
                self.cursor
            },
        }
    }

    /// After the entry under the cursor is approved. Nothing changes where the
    /// cursor points at no entry.
    pub open spec fn approved_current(self) -> GateView {
        match self.cursor {
            Some(c) => if 0 <= c < self.queue.len() {
                GateView { queue: self.queue.update(c, flagged(self.queue[c], true)), ..self }
            } else {
                self
            },
            None => self,
        }
    }

    /// After the entry under the cursor is rejected and removed: the cursor
    /// stays where it was, moves to the last entry if it was beyond it, and is
    /// unset when nothing is left. Nothing changes where the cursor points at
    /// no entry.
    pub open spec fn rejected_current(self) -> GateView {
        match self.cursor {
            Some(c) => if 0 <= c < self.queue.len() {
                let queue = self.queue.remove(c);
                GateView {
                    queue,
                    cursor: if queue.len() == 0 {
                        None
                    } else {
                        Some(clamped(c, queue.len() as int))
                    },
                }
            } else {
                self
            },
            None => self,
        }
    }

    /// After every entry got the approval flag `approved`.
    pub open spec fn all_flagged(self, approved: bool) -> GateView {
        GateView {
            queue: Seq::new(self.queue.len(), |i: int| flagged(self.queue[i], approved)),
            ..self
        }
    }

    /// After the cursor moved by `delta` entries, as far as the queue goes.
    pub open spec fn navigated(self, delta: int) -> GateView {
        match self.cursor {
            Some(c) => if self.queue.len() > 0 {
                GateView { cursor: Some(clamped(c + delta, self.queue.len() as int)), ..self }
            } else {
                self
            },
            None => self,
        }
    }
}

/// A command that left the queue for execution, with the place it had in the
/// queue.
#[derive(Debug)]
pub struct Dispatch {
    pub index: usize,
    pub command: AgentCommand,
}

/// The tags and commands of a batch.
pub open spec fn dispatch_views(batch: Seq<Dispatch>) -> Seq<(int, AgentCommandView)> {
    Seq::new(batch.len(), |i: int| (batch[i].index as int, batch[i].command@))
}

/// A command's view once `result` came back for it: executed, with the
/// output of a success or the error of a failure.
pub open spec fn completed(c: AgentCommandView, result: Result<Seq<char>, Seq<char>>)
    -> AgentCommandView {
    match result {
        Ok(output) => AgentCommandView { executed: true, output: Some(output), ..c },
        Err(error) => AgentCommandView { executed: true, error: Some(error), ..c },
    }
}

/// The first place in `batch` with the tag `index`.
pub open spec fn tagged_at(batch: Seq<(int, AgentCommandView)>, index: int) -> Option<int>
    decreases batch.len(),
{
    if batch.len() == 0 {
        None
    } else {
        match tagged_at(batch.drop_last(), index) {
            Some(i) => Some(i),
            None => if batch.last().0 == index {
                Some(batch.len() - 1)
            } else {
                None
            },
        }
    }
}

/// `batch` after the result for the tag `index` came back.
pub open spec fn reconciled(
    batch: Seq<(int, AgentCommandView)>,
    index: int,
    result: Result<Seq<char>, Seq<char>>,
) -> Seq<(int, AgentCommandView)> {
    match tagged_at(batch, index) {
        Some(i) => batch.update(i, (index, completed(batch[i].1, result))),
        None => batch,
    }
}

impl AgentCommand {
    /// Records what came back from running this command. A command that was
    /// executed stays executed.
    pub fn complete(&mut self, result: Result<String, String>)
        ensures
            final(self)@ == completed(
                old(self)@,
                match result {
                    Ok(s) => Ok(s@),
                    Err(s) => Err(s@),
                },
            ),
            final(self).executed,
    {
        self.executed = true;
        match result {
            Ok(output) => {
                self.output = Some(output);
            },
            Err(error) => {
                self.error = Some(error);
            },
        }
    }
}

/// Records the result for the command with tag `index`, and says whether the
/// batch holds such a command. Results may come in any order; no command that
/// was executed becomes unexecuted.
pub fn reconcile(batch: &mut Vec<Dispatch>, index: usize, result: Result<String, String>) -> (found:
    bool)
    ensures
        dispatch_views(final(batch)@) == reconciled(
            dispatch_views(old(batch)@),
            index as int,
            match result {
                Ok(s) => Ok(s@),
                Err(s) => Err(s@),
            },
        ),
        found == tagged_at(dispatch_views(old(batch)@), index as int).is_some(),
        final(batch).len() == old(batch).len(),
        forall|i: int|
            0 <= i < old(batch).len() && old(batch)@[i].command.executed ==> (
            #[trigger] final(batch)@[i]).command.executed,
{
    let ghost views = dispatch_views(batch@);
    let mut i: usize = 0;
    assert(views.take(0) == Seq::<(int, AgentCommandView)>::empty());
    while i < batch.len()
        invariant
            i <= batch.len(),
            batch@ == old(batch)@,
            views == dispatch_views(batch@),
            tagged_at(views.take(i as int), index as int) is None,
        decreases batch.len() - i,
    {
        assert(views.take(i + 1).drop_last() == views.take(i as int));
        if batch[i].index == index {
            assert(tagged_at(views.take(i + 1), index as int) == Some(i as int));
            proof {
                lemma_tagged_at_prefix(views, index as int, i + 1);
            }
            let mut command = batch[i].command.duplicate();
            command.complete(result);
            batch.set(i, Dispatch { index, command });
            assert(dispatch_views(batch@) == views.update(i as int, (index as int, command@)));
            return true;
        }
        i += 1;
    }
    assert(views.take(batch.len() as int) == views);
    false
}

/// A place found in a prefix of a batch is the place found in the batch.
pub proof fn lemma_tagged_at_prefix(batch: Seq<(int, AgentCommandView)>, index: int, n: int)
    requires
        0 <= n <= batch.len(),
        tagged_at(batch.take(n), index) is Some,
    ensures
        tagged_at(batch, index) == tagged_at(batch.take(n), index),
    decreases batch.len() - n,
{
    if n < batch.len() {
        assert(batch.take(n + 1).drop_last() == batch.take(n));
        lemma_tagged_at_prefix(batch, index, n + 1);
    } else {
        assert(batch.take(n) == batch);
    }
}

/// The queue of commands under review.
pub struct ApprovalGate {
    queue: Vec<AgentCommand>,
    cursor: Option<usize>,
}

impl View for ApprovalGate {
    type V = GateView;

    closed spec fn view(&self) -> GateView {
        GateView {
            queue: command_views(self.queue@),
            cursor: match self.cursor {
                Some(c) => Some(c as int),
                None => None,
            },
        }
    }
}

impl ApprovalGate {
    /// An empty queue with no cursor.
    pub fn new() -> (gate: ApprovalGate)
        ensures
            gate@.queue.len() == 0,
            gate@.cursor is None,
            gate@.wf(),
    {
        ApprovalGate { queue: Vec::new(), cursor: None }
    }

    /// The number of commands in the queue.
    pub fn len(&self) -> (n: usize)
        ensures
            n == self@.queue.len(),
    {
        self.queue.len()
    }

    /// Whether the queue holds no command.
    pub fn is_empty(&self) -> (b: bool)
        ensures
            b == (self@.queue.len() == 0),
    {
        self.queue.len() == 0
    }

    /// The index under review.
    pub fn cursor(&self) -> (c: Option<usize>)
        ensures
            match c {
                Some(i) => self@.cursor == Some(i as int),
                None => self@.cursor is None,
            },
    {
        self.cursor
    }

    /// The command at `index`.
    pub fn get(&self, index: usize) -> (r: Option<&AgentCommand>)
        ensures
            match r {
                Some(c) => index < self@.queue.len() && c@ == self@.queue[index as int],
                None => index >= self@.queue.len(),
            },
    {
        if index < self.queue.len() {
            Some(&self.queue[index])
        } else {
            None
        }
    }

    /// The command under review.
    pub fn current(&self) -> (r: Option<&AgentCommand>)
        ensures
            match r {
                Some(c) => self@.current() == Some(c@),
                None => self@.current() is None,
            },
    {
        match self.cursor {
            Some(c) => if c < self.queue.len() {
                Some(&self.queue[c])
            } else {
                None
            },
            None => None,
        }
    }

    /// Appends `cmds` to the queue.
    pub fn add_batch(&mut self, cmds: Vec<AgentCommand>)
        ensures
            final(self)@ == old(self)@.added(command_views(cmds@)),
            old(self)@.wf() ==> final(self)@.wf(),
    {
        let mut cmds = cmds;
        let ghost batch = command_views(cmds@);
        self.queue.append(&mut cmds);
        assert(command_views(self.queue@) == old(self)@.queue + batch);
        if self.cursor.is_none() && self.queue.len() > 0 {
            self.cursor = Some(0);
        }
    }

    fn flag(&mut self, index: usize, approved: bool)
        requires
            index < old(self)@.queue.len(),
        ensures
            final(self)@.queue == old(self)@.queue.update(
                index as int,
                flagged(old(self)@.queue[index as int], approved),
            ),
            final(self)@.cursor == old(self)@.cursor,
    {
        let mut command = self.queue[index].duplicate();
        command.approved = approved;
        self.queue.set(index, command);
        assert(command_views(self.queue@) == old(self)@.queue.update(
            index as int,
            flagged(old(self)@.queue[index as int], approved),
        ));
    }

    /// Approves the command under review.
    pub fn approve_current(&mut self)
        ensures
            final(self)@ == old(self)@.approved_current(),
            old(self)@.wf() ==> final(self)@.wf(),
    {
        match self.cursor {
            Some(c) => {
                if c < self.queue.len() {
                    self.flag(c, true);
                }
            },
            None => {},
        }
    }

    /// Rejects the command under review and takes it out of the queue.
    pub fn reject_current(&mut self)
        ensures
            final(self)@ == old(self)@.rejected_current(),
            old(self)@.wf() ==> final(self)@.wf(),
    {
        match self.cursor {
            Some(c) => {
                if c < self.queue.len() {
                    self.queue.remove(c);
                    assert(command_views(self.queue@) == old(self)@.queue.remove(c as int));
                    if self.queue.len() == 0 {
                        self.cursor = None;
                    } else if c >= self.queue.len() {
                        self.cursor = Some(self.queue.len() - 1);
                    }
                }
            },
            None => {},
        }
    }

    fn flag_all(&mut self, approved: bool)
        ensures
            final(self)@ == old(self)@.all_flagged(approved),
    {
        let mut i: usize = 0;
        while i < self.queue.len()
            invariant
                i <= self.queue.len(),
                self.queue.len() == old(self).queue.len(),
                self.cursor == old(self).cursor,
                forall|k: int|
                    0 <= k < i ==> (#[trigger] self.queue@[k])@ == flagged(
                        old(self).queue@[k]@,
                        approved,
                    ),
                forall|k: int| i <= k < self.queue.len() ==> self.queue@[k] == old(self).queue@[k],
            decreases self.queue.len() - i,
        {
            let mut command = self.queue[i].duplicate();
            command.approved = approved;
            self.queue.set(i, command);
            i += 1;
        }
        assert(self@.queue == old(self)@.all_flagged(approved).queue);
    }

    /// Approves every command in the queue; none is removed.
    pub fn approve_all(&mut self)
        ensures
            final(self)@ == old(self)@.all_flagged(true),
            old(self)@.wf() ==> final(self)@.wf(),
    {
        self.flag_all(true);
    }

    /// Withdraws the approval of every command in the queue; none is removed.
    pub fn reject_all(&mut self)
        ensures
            final(self)@ == old(self)@.all_flagged(false),
            old(self)@.wf() ==> final(self)@.wf(),
    {
        self.flag_all(false);
    }

    /// Moves the cursor by `delta` entries; it stops at either end of the
    /// queue.
    pub fn navigate(&mut self, delta: i32)
        ensures
            final(self)@ == old(self)@.navigated(delta as int),
            old(self)@.wf() ==> final(self)@.wf(),
    {
        match self.cursor {
            Some(c) => {
                let len = self.queue.len();
                if len > 0 {
                    let target: usize = if delta < 0 {
                        let back: u64 = (-(delta as i64)) as u64;
                        if back > c as u64 {
                            0
                        } else if c - back as usize >= len {
                            len - 1
                        } else {
                            c - back as usize
                        }
                    } else {
                        let ahead: u32 = delta as u32;
                        if c >= len || ahead as u64 >= (len - c) as u64 {
                            len - 1
                        } else {
                            c + ahead as usize
                        }
                    };
                    self.cursor = Some(target);
                }
            },
            None => {},
        }
    }

    /// Drops every command.
    pub fn clear(&mut self)
        ensures
            final(self)@.queue.len() == 0,
            final(self)@.cursor is None,
            final(self)@.wf(),
    {
        self.queue.clear();
        self.cursor = None;
    }

    /// Puts `cmds` in place of the queue, the first of them under review.
    pub fn replace(&mut self, cmds: Vec<AgentCommand>)
        ensures
            final(self)@.queue == command_views(cmds@),
            final(self)@.cursor == (if cmds@.len() > 0 {
                Some(0int)
            } else {
                None
            }),
            final(self)@.wf(),
    {
        self.cursor = if cmds.len() > 0 {
            Some(0)
        } else {
            None
        };
        self.queue = cmds;
    }

    /// Hands out the commands that are approved and not yet executed, each
    /// with its index in the queue, and empties the queue.
    pub fn execute_approved(&mut self) -> (batch: Vec<Dispatch>)
        ensures
            dispatch_views(batch@) == approved_batch(old(self)@.queue),
            final(self)@.queue.len() == 0,
            final(self)@.cursor is None,
            final(self)@.wf(),
    {
        let mut batch: Vec<Dispatch> = Vec::new();
        let mut i: usize = 0;
        let ghost queue = self@.queue;
        assert(queue.take(0) == Seq::<AgentCommandView>::empty());
        while i < self.queue.len()
            invariant
                i <= self.queue.len(),
                queue == command_views(self.queue@),
                dispatch_views(batch@) == approved_batch(queue.take(i as int)),
            decreases self.queue.len() - i,
        {
            assert(queue.take(i + 1).drop_last() == queue.take(i as int));
            if self.queue[i].approved && !self.queue[i].executed {
                let ghost before = batch@;
                let command = self.queue[i].duplicate();
                batch.push(Dispatch { index: i, command });
                assert(dispatch_views(batch@) == dispatch_views(before).push(
                    (i as int, command@),
                ));
            }
            i += 1;
        }
        assert(queue.take(self.queue.len() as int) == queue);
        self.queue.clear();
        self.cursor = None;
        batch
    }
}

} // verus!
