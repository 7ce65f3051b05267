//! Operations that run on their own: each ends once, by finishing or by being
//! cancelled, and what it left behind is removed.
use crate::backend::{BackendError, BackendErrorKind, BackendResult};
use crate::model::OperationResult;
use crate::text;
use vstd::prelude::*;
use vstd::string::*;

verus! {

/// How far an operation has come.
#[derive(Debug, Clone, Copy, PartialEq, Eq, Structural)]
pub enum Phase {
    Editing,
    Committing,
    Cancelled,
    Finished,
}

/// What decides whether an operation is finished or cancelled.
#[derive(Debug, Clone, Copy, PartialEq, Eq, Structural)]
pub struct OperationControl {
    pub phase: Phase,
}

impl Default for OperationControl {
    fn default() -> (control: Self)
        ensures
            control.phase == Phase::Editing,
    {
        OperationControl { phase: Phase::Editing }
    }
}

impl OperationControl {
    /// Whether the right to finish can be taken, and what is then left.
    pub open spec fn committed(self) -> (bool, Self) {
        if self.phase == Phase::Editing {
            (true, OperationControl { phase: Phase::Committing })
        } else {
            (false, self)
        }
    }

    /// Whether the operation can be cancelled, and what is then left.
    pub open spec fn cancelled(self) -> (bool, Self) {
        if self.phase == Phase::Editing {
            (true, OperationControl { phase: Phase::Cancelled })
        } else {
            (false, self)
        }
    }

    /// Takes the right to finish. After that, nothing cancels the operation.
    pub fn begin_commit(&mut self) -> (begun: bool)
        ensures
            (begun, *final(self)) == old(self).committed(),
    {
        if matches!(self.phase, Phase::Editing) {
            self.phase = Phase::Committing;
            true
        } else {
            false
        }
    }

    /// Cancels the operation, unless it is about to finish or is over.
    pub fn cancel(&mut self) -> (cancelled: bool)
        ensures
            (cancelled, *final(self)) == old(self).cancelled(),
    {
        if matches!(self.phase, Phase::Editing) {
            self.phase = Phase::Cancelled;
            true
        } else {
            false
        }
    }

    /// Ends the operation.
    pub fn finish(&mut self)
        ensures
            final(self).phase == Phase::Finished,
    {
        self.phase = Phase::Finished;
    }

    /// Whether waiting for the operation is over.
    pub fn wait(&self) -> (over: bool)
        ensures
            over == (self.phase == Phase::Finished),
    {
        matches!(self.phase, Phase::Finished)
    }
}

/// Not both of committing and cancelling succeed, in whichever order they are
/// tried.
pub proof fn commit_and_cancel_exclude_each_other(control: OperationControl)
    ensures
        control.committed().0 ==> !control.committed().1.cancelled().0,
        control.cancelled().0 ==> !control.cancelled().1.committed().0,
{
}

/// One operation under way.
pub struct OperationTask {
    pub id: String,
    pub action: String,
    pub control: OperationControl,
    pub files: Vec<String>,
}

/// The operations under way.
pub struct Operations {
    pub tasks: Vec<OperationTask>,
}

/// Where the operation with this identifier stands, or how many there are.
pub open spec fn task_index(tasks: Seq<OperationTask>, id: Seq<char>) -> int
    decreases tasks.len(),
{
    if tasks.len() == 0 || tasks[0].id@ == id {
        0
    } else {
        1 + task_index(tasks.drop_first(), id)
    }
}

/// An operation that a cancelled one leaves behind: what is told, and which
/// files are to be removed.
pub struct Cancellation {
    pub event: OperationResult,
    pub files: Vec<String>,
}

/// What is said of a cancelled operation.
pub open spec fn cancelled_message(action: Seq<char>) -> Seq<char> {
    if action == "annotate"@ {
        "Image edit cancelled"@
    } else {
        "Screenshot cancelled"@
    }
}

impl Operations {
    pub fn new() -> (operations: Self)
        ensures
            operations.tasks@.len() == 0,
    {
        Operations { tasks: Vec::new() }
    }

    fn find(&self, id: &str) -> (at: usize)
        ensures
            at == task_index(self.tasks@, id@),
            at <= self.tasks@.len(),
            at < self.tasks@.len() ==> self.tasks@[at as int].id@ == id@,
    {
        let mut at: usize = 0;
        assert(self.tasks@.skip(0) =~= self.tasks@);
        while at < self.tasks.len()
            invariant
                at <= self.tasks@.len(),
                task_index(self.tasks@, id@) == at + task_index(self.tasks@.skip(at as int), id@),
            decreases self.tasks@.len() - at,
        {
            if text::same(self.tasks[at].id.as_str(), id) {
                return at;
            }
            assert(self.tasks@.skip(at as int).drop_first() =~= self.tasks@.skip(at + 1));
            at = at + 1;
        }
        at
    }

    /// A screenshot is being taken.
    pub open spec fn capturing(self) -> bool {
        exists|i: int|
            0 <= i < self.tasks@.len() && (#[trigger] self.tasks@[i]).action@ == "screenshot"@
    }

    /// Starts an operation, whose files are removed when it is over. Only one
    /// screenshot is taken at a time.
    pub fn launch(&mut self, id: String, action: &str, files: Vec<String>) -> (result: BackendResult<
        (),
    >)
        ensures
            match result {
                Ok(_) => {
                    &&& !(action@ == "screenshot"@ && old(self).capturing())
                    &&& final(self).tasks@.len() == old(self).tasks@.len() + 1
                    &&& final(self).tasks@.drop_last() == old(self).tasks@
                    &&& final(self).tasks@.last().id == id
                    &&& final(self).tasks@.last().action@ == action@
                    &&& final(self).tasks@.last().control.phase == Phase::Editing
                    &&& final(self).tasks@.last().files == files
                },
                Err(error) => {
                    &&& action@ == "screenshot"@ && old(self).capturing()
                    &&& final(self).tasks@ == old(self).tasks@
                    &&& error.is(
                        BackendErrorKind::OperationFailed,
                        "A screenshot is already in progress"@,
                    )
                },
            },
    {
        if text::same(action, "screenshot") {
            for i in 0..self.tasks.len()
                invariant
                    *self == *old(self),
                    action@ == "screenshot"@,
                    forall|j: int|
                        0 <= j < i ==> (#[trigger] self.tasks@[j]).action@ != "screenshot"@,
            {
                if text::same(self.tasks[i].action.as_str(), "screenshot") {
                    assert(self.tasks@[i as int].action@ == "screenshot"@);
                    return Err(
                        BackendError::new(
                            BackendErrorKind::OperationFailed,
                            "A screenshot is already in progress",
                        ),
                    );
                }
            }
        }
        let ghost before = self.tasks@;
        self.tasks.push(
            OperationTask {
                id,
                action: action.to_owned(),
                control: OperationControl { phase: Phase::Editing },
                files,
            },
        );
        assert(self.tasks@.drop_last() =~= before);
        Ok(())
    }

    /// Takes the right to finish for an operation.
    pub fn begin_commit(&mut self, id: &str) -> (begun: bool)
        ensures
            ({
                let at = task_index(old(self).tasks@, id@);
                let open = at < old(self).tasks@.len() && old(self).tasks@[at].control.phase
                    == Phase::Editing;
                &&& begun == open
                &&& final(self).tasks@ == if open {
                    old(self).tasks@.update(
                        at,
                        OperationTask {
                            control: OperationControl { phase: Phase::Committing },
                            ..old(self).tasks@[at]
                        },
                    )
                } else {
                    old(self).tasks@
                }
            }),
    {
        let at = self.find(id);
        if at == self.tasks.len() {
            return false;
        }
        let ghost before = self.tasks@;
        let mut task = self.tasks.remove(at);
        let begun = task.control.begin_commit();
        self.tasks.insert(at, task);
        proof {
            if begun {
                assert(self.tasks@ =~= before.update(at as int, task));
            } else {
                assert(self.tasks@ =~= before);
            }
        }
        begun
    }

    /// Cancels an operation that has not taken the right to finish. Its end is
    /// told once, and its files are removed.
    pub fn cancel_operation(&mut self, id: &str) -> (cancelled: Option<Cancellation>)
        ensures
            ({
                let at = task_index(old(self).tasks@, id@);
                let open = at < old(self).tasks@.len() && old(self).tasks@[at].control.phase
                    == Phase::Editing;
                match cancelled {
                    Some(cancelled) => {
                        &&& open
                        &&& final(self).tasks@ == old(self).tasks@.remove(at)
                        &&& cancelled.files == old(self).tasks@[at].files
                        &&& cancelled.event.id@ == id@
                        &&& cancelled.event.action@ == old(self).tasks@[at].action@
                        &&& cancelled.event.status@ == "cancelled"@
                        &&& cancelled.event.message@ == cancelled_message(
                            old(self).tasks@[at].action@,
                        )
                        &&& cancelled.event.path is None
                        &&& cancelled.event.warning is None
                    },
                    None => !open && final(self).tasks@ == old(self).tasks@,
                }
            }),
    {
        let at = self.find(id);
        if at == self.tasks.len() || !matches!(self.tasks[at].control.phase, Phase::Editing) {
            return None;
        }
        let task = self.tasks.remove(at);
        let message = if text::same(task.action.as_str(), "annotate") {
            "Image edit cancelled"
        } else {
            "Screenshot cancelled"
        };
        let event = OperationResult::with_id(
            task.id,
            task.action.as_str(),
            "cancelled",
            message,
        );
        Some(Cancellation { event, files: task.files })
    }

    /// Takes the right to tell the end of an operation. Only one can have it; the
    /// files that are then to be removed come with it.
    pub fn claim_terminal_event(&mut self, id: &str) -> (files: Option<Vec<String>>)
        ensures
            ({
                let at = task_index(old(self).tasks@, id@);
                match files {
                    Some(files) => at < old(self).tasks@.len() && files
                        == old(self).tasks@[at].files && final(self).tasks@
                        == old(self).tasks@.remove(at),
                    None => at == old(self).tasks@.len() && final(self).tasks@ == old(self).tasks@,
                }
            }),
    {
        let at = self.find(id);
        if at == self.tasks.len() {
            return None;
        }
        let task = self.tasks.remove(at);
        Some(task.files)
    }

    /// The identifiers of the operations under way.
    pub fn active(&self) -> (ids: Vec<String>)
        ensures
            ids@.len() == self.tasks@.len(),
            forall|i: int| 0 <= i < ids@.len() ==> #[trigger] ids@[i] == self.tasks@[i].id,
    {
        let mut ids: Vec<String> = Vec::new();
        for i in 0..self.tasks.len()
            invariant
                ids@.len() == i,
                forall|j: int| 0 <= j < i ==> #[trigger] ids@[j] == self.tasks@[j].id,
        {
            ids.push(self.tasks[i].id.clone());
        }
        ids
    }
}

/// No two operations have the same identifier.
pub open spec fn distinct_ids(tasks: Seq<OperationTask>) -> bool {
    forall|i: int, j: int|
        0 <= i < j < tasks.len() ==> (#[trigger] tasks[i]).id@ != (#[trigger] tasks[j]).id@
}

/// An operation ends once: whoever takes it out of the operations under way,
/// nobody finds it there again.
pub proof fn operations_end_once(tasks: Seq<OperationTask>, id: Seq<char>)
    requires
        distinct_ids(tasks),
        task_index(tasks, id) < tasks.len(),
    ensures
        ({
            let rest = tasks.remove(task_index(tasks, id));
            task_index(rest, id) == rest.len()
        }),
{
    task_index_is_first(tasks, id);
    let at = task_index(tasks, id);
    let rest = tasks.remove(at);
    task_index_is_first(rest, id);
    let k = task_index(rest, id);
    if k < rest.len() {
        if k < at {
            assert(rest[k] == tasks[k]);
        } else {
            assert(rest[k] == tasks[k + 1]);
        }
    }
}

proof fn task_index_is_first(tasks: Seq<OperationTask>, id: Seq<char>)
    ensures
        0 <= task_index(tasks, id) <= tasks.len(),
        task_index(tasks, id) < tasks.len() ==> tasks[task_index(tasks, id)].id@ == id,
        forall|i: int| 0 <= i < task_index(tasks, id) ==> (#[trigger] tasks[i]).id@ != id,
    decreases tasks.len(),
{
    if tasks.len() > 0 && tasks[0].id@ != id {
        task_index_is_first(tasks.drop_first(), id);
        assert forall|i: int| 0 <= i < task_index(tasks, id) implies (#[trigger] tasks[i]).id@
            != id by {
            if i > 0 {
                assert(tasks.drop_first()[i - 1] == tasks[i]);
            }
        }
    }
}

/// What an operation that finished says: that it is done, with a warning where
/// only part of it was.
pub struct OperationCompletion {
    pub message: String,
    pub warning: Option<String>,
}

impl OperationCompletion {
    /// What is told of the end of the operation.
    pub fn event(self, id: String, action: &str) -> (event: OperationResult)
        ensures
            event.id == id,
            event.action@ == action@,
            event.status@ == "completed"@,
            event.message@ == self.message@,
            event.path is None,
            event.warning == self.warning,
    {
        let mut event = OperationResult::with_id(
            id,
            action,
            "completed",
            self.message.as_str(),
        );
        event.warning = self.warning;
        event
    }
}

/// What is told of the end of an image edit.
pub fn annotation_event(id: String, result: BackendResult<OperationCompletion>) -> (event:
    OperationResult)
    ensures
        event.id == id,
        event.action@ == "annotate"@,
        event.path is None,
        match result {
            Ok(completion) => event.status@ == "completed"@ && event.message@
                == completion.message@ && event.warning == completion.warning,
            Err(error) => event.status@ == "failed"@ && event.message@ == error.message@
                && event.warning is None,
        },
{
    match result {
        Ok(completion) => completion.event(id, "annotate"),
        Err(error) => OperationResult::with_id(id, "annotate", "failed", error.message()),
    }
}

} // verus!
