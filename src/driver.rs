use vstd::prelude::*;
use crate::scope::{ScopeArena, arena_wf, keeps_retired, root_node};

verus! {

/// Where the driver stands within a tick.
#[derive(Clone, Copy, PartialEq, Eq, Structural, Debug)]
pub enum Phase {
    /// Between ticks.
    Idle,
    /// Rebuilding the interface.
    Building,
    /// Giving the script's tasks their turn.
    Resuming,
}

/// What the entry module handed back when it was run.
#[derive(Clone, Copy, PartialEq, Eq, Structural, Debug)]
pub enum MainValue {
    /// Nothing was loaded.
    Absent,
    /// A function: the initialiser, to be called.
    Function,
    /// Any other value.
    Other,
}

/// What calling the initialiser gave.
#[derive(Clone, Debug)]
pub enum InitOutcome {
    /// It returned a function: the render entry point.
    ReturnedRender,
    /// It returned something else.
    ReturnedOther,
    /// It raised an error.
    Failed(String),
}

/// What the host should draw in a tick.
#[derive(Clone, Debug)]
pub enum FrameAction {
    /// An error panel with this message instead of the interface.
    ShowError(String),
    /// Call the render entry point on the root region.
    Render,
    /// Nothing: no entry point is registered.
    Skip,
}

/// Decides the order of the work in each tick: build the interface first,
/// then resume the script's tasks exactly once.
pub struct FrameDriver {
    pub init_error: Option<String>,
    pub phase: Phase,
    pub frames: u64,
}

/// The message given when the entry module did not return an initialiser.
pub open spec fn no_initialiser_message() -> Seq<char> {
    "Expected main to return init function, recieved nothing"@
}

pub open spec fn init_error_after(load_error: Option<String>, main: MainValue) -> Option<Seq<char>> {
    match main {
        MainValue::Other => Some(no_initialiser_message()),
        _ => match load_error {
            Some(e) => Some(e@),
            None => None,
        },
    }
}

pub open spec fn opt_view(e: Option<String>) -> Option<Seq<char>> {
    match e {
        Some(s) => Some(s@),
        None => None,
    }
}

impl FrameDriver {
    /// A driver after loading: `load_error` is what loading reported, and
    /// `main` what the entry module returned. Returns whether the
    /// initialiser should now be called.
    pub fn start(load_error: Option<String>, main: MainValue) -> (r: (FrameDriver, bool))
        ensures
            r.0.phase == Phase::Idle,
            r.0.frames == 0,
            opt_view(r.0.init_error) == init_error_after(load_error, main),
            r.1 == (main == MainValue::Function),
    {
        let call = match main {
            MainValue::Function => true,
            _ => false,
        };
        let init_error = match main {
            MainValue::Other => Some(
                String::from_str("Expected main to return init function, recieved nothing"),
            ),
            _ => load_error,
        };
        (FrameDriver { init_error, phase: Phase::Idle, frames: 0 }, call)
    }

    /// Records what calling the initialiser gave. Returns whether its result
    /// is to be registered as the render entry point.
    pub fn initialised(&mut self, outcome: InitOutcome) -> (register: bool)
        ensures
            final(self).phase == old(self).phase,
            final(self).frames == old(self).frames,
            register == (outcome is ReturnedRender),
            outcome matches InitOutcome::Failed(e) ==> opt_view(final(self).init_error) == Some(e@),
            !(outcome is Failed) ==> final(self).init_error == old(self).init_error,
    {
        match outcome {
            InitOutcome::ReturnedRender => true,
            InitOutcome::ReturnedOther => false,
            InitOutcome::Failed(e) => {
                self.init_error = Some(e);
                false
            },
        }
    }

    /// Records an error of the host's own set-up; from now on every tick shows it.
    pub fn record_error(&mut self, e: String)
        ensures
            final(self).phase == old(self).phase,
            final(self).frames == old(self).frames,
            opt_view(final(self).init_error) == Some(e@),
    {
        self.init_error = Some(e);
    }

    /// Starts a tick on a clean tree: nothing built in an earlier frame is
    /// kept, and no handle of an earlier frame works again. `render_available`
    /// says whether a render entry point is registered. An initialisation
    /// error is shown in place of the interface.
    pub fn begin_tick(&mut self, arena: &mut ScopeArena, render_available: bool) -> (a: FrameAction)
        requires
            old(self).phase == Phase::Idle,
            arena_wf(old(arena)@),
        ensures
            arena_wf(final(arena)@),
            final(arena)@.scopes.len() == 0,
            final(arena)@.nodes == seq![root_node()],
            keeps_retired(old(arena)@, final(arena)@),
            final(self).phase == Phase::Building,
            final(self).frames == old(self).frames,
            final(self).init_error == old(self).init_error,
            old(self).init_error matches Some(e) ==> a matches FrameAction::ShowError(m) && m@ == e@,
            old(self).init_error is None && render_available ==> a is Render,
            old(self).init_error is None && !render_available ==> a is Skip,
    {
        arena.begin_frame();
        self.phase = Phase::Building;
        match &self.init_error {
            Some(e) => FrameAction::ShowError(e.clone()),
            None => if render_available {
                FrameAction::Render
            } else {
                FrameAction::Skip
            },
        }
    }

    /// Ends the build. An error raised while building is shown for this
    /// frame only: the returned message goes in an error panel, and nothing
    /// of it is kept for the next frame.
    pub fn end_build(&mut self, outcome: Result<(), String>) -> (panel: Option<String>)
        requires
            old(self).phase == Phase::Building,
        ensures
            final(self).phase == Phase::Resuming,
            final(self).frames == old(self).frames,
            final(self).init_error == old(self).init_error,
            opt_view(panel) == match outcome {
                Ok(_) => None::<Seq<char>>,
                Err(e) => Some(e@),
            },
    {
        self.phase = Phase::Resuming;
        match outcome {
            Ok(_) => None,
            Err(e) => Some(e),
        }
    }

    /// Ends the tick with its one fairness pass over the script's tasks:
    /// `outcomes[i]` is what resuming task `i` gave. The pass can only come
    /// after the build, and only once in a tick.
    pub fn finish_tick(&mut self, tasks: &mut TaskRegistry, outcomes: &Vec<ResumeOutcome>)
        requires
            old(self).phase == Phase::Resuming,
            every_pending_resumed(old(tasks).tasks(), outcomes@),
        ensures
            final(self).phase == Phase::Idle,
            final(self).init_error == old(self).init_error,
            final(self).frames == if old(self).frames == u64::MAX {
                u64::MAX
            } else {
                (old(self).frames + 1) as u64
            },
            one_pass(old(tasks).tasks(), outcomes@, final(tasks).tasks()),
            final(tasks).next_id() == old(tasks).next_id(),
    {
        tasks.resume_all(outcomes);
        self.phase = Phase::Idle;
        self.frames = self.frames.saturating_add(1);
    }
}

/// How far a task has come.
#[derive(Clone, Copy, PartialEq, Eq, Structural, Debug)]
pub enum TaskStatus {
    /// Suspended at a yield point, waiting for its next turn.
    Pending,
    /// Ran to its end.
    Finished,
    /// Stopped with an error.
    Faulted,
}

/// What one resumption of a task gave.
#[derive(Clone, Copy, PartialEq, Eq, Structural, Debug)]
pub enum ResumeOutcome {
    /// It suspended again at a yield point.
    Yielded,
    Finished,
    Faulted,
    /// It was not resumed (it was not pending).
    Skipped,
}

/// A cooperative task of the script. `resumptions` counts its turns: the
/// point it has reached, which a turn only moves forward.
#[derive(Clone, Copy, PartialEq, Eq, Structural, Debug)]
pub struct Task {
    pub id: u64,
    pub resumptions: u64,
    pub status: TaskStatus,
}

/// The cooperative tasks that are resumed once per tick, in order of
/// registration. A host whose script runs its own scheduler as one
/// coroutine registers that coroutine as a single task: the tasks it
/// multiplexes are then the script's concern, and the pass here gives the
/// scheduler itself one turn per tick.
pub struct TaskRegistry {
    tasks: Vec<Task>,
    next_id: u64,
}

/// A task after one turn with outcome `o`: a pending task takes the outcome
/// and counts the turn; any other task is left as it is.
pub open spec fn after_turn(t: Task, o: ResumeOutcome) -> Task {
    if t.status == TaskStatus::Pending && o != ResumeOutcome::Skipped {
        Task {
            id: t.id,
            resumptions: if t.resumptions == u64::MAX {
                u64::MAX
            } else {
                (t.resumptions + 1) as u64
            },
            status: match o {
                ResumeOutcome::Yielded => TaskStatus::Pending,
                ResumeOutcome::Finished => TaskStatus::Finished,
                _ => TaskStatus::Faulted,
            },
        }
    } else {
        t
    }
}

/// The outcomes of a fair pass: every pending task had its turn, and only
/// the tasks that are not pending were skipped.
pub open spec fn every_pending_resumed(tasks: Seq<Task>, os: Seq<ResumeOutcome>) -> bool {
    &&& os.len() == tasks.len()
    &&& forall|i: int|
        0 <= i < tasks.len() ==> ((#[trigger] os[i] == ResumeOutcome::Skipped) <==> tasks[i].status
            != TaskStatus::Pending)
}

/// `after` is `before` after one pass in which task `i` had outcome `os[i]`.
pub open spec fn one_pass(before: Seq<Task>, os: Seq<ResumeOutcome>, after: Seq<Task>) -> bool {
    &&& before.len() == os.len()
    &&& after.len() == before.len()
    &&& forall|i: int| 0 <= i < before.len() ==> after[i] == after_turn(before[i], os[i])
}

impl TaskRegistry {
    pub fn new() -> (r: TaskRegistry)
        ensures
            r.tasks().len() == 0,
            r.next_id() == 0,
    {
        TaskRegistry { tasks: Vec::new(), next_id: 0 }
    }

    /// The registered tasks, in order of registration.
    pub closed spec fn tasks(&self) -> Seq<Task> {
        self.tasks@
    }

    /// The identities handed out so far are all below this.
    pub closed spec fn next_id(&self) -> u64 {
        self.next_id
    }

    /// How many tasks are registered.
    pub fn len(&self) -> (n: usize)
        ensures
            n == self.tasks().len(),
    {
        self.tasks.len()
    }

    /// The task at position `i`.
    pub fn task(&self, i: usize) -> (t: Task)
        requires
            i < self.tasks().len(),
        ensures
            t == self.tasks()[i as int],
    {
        self.tasks[i]
    }

    /// Whether the task at position `i` is waiting for a turn.
    pub fn is_pending(&self, i: usize) -> (r: bool)
        requires
            i < self.tasks().len(),
        ensures
            r == (self.tasks()[i as int].status == TaskStatus::Pending),
    {
        self.tasks[i].status == TaskStatus::Pending
    }

    /// Registers a new pending task that has not run yet, and returns its
    /// identity; `None` once every identity has been used.
    pub fn register(&mut self) -> (r: Option<u64>)
        ensures
            old(self).next_id() == u64::MAX ==> r is None && final(self).tasks() == old(
                self,
            ).tasks(),
            old(self).next_id() < u64::MAX ==> r == Some(old(self).next_id()) && final(self).tasks()
                == old(self).tasks().push(
                Task { id: old(self).next_id(), resumptions: 0, status: TaskStatus::Pending },
            ) && final(self).next_id() == old(self).next_id() + 1,
    {
        if self.next_id == u64::MAX {
            return None;
        }
        let id = self.next_id;
        self.tasks.push(Task { id, resumptions: 0, status: TaskStatus::Pending });
        self.next_id = id + 1;
        Some(id)
    }

    /// One fairness pass: every pending task takes the outcome of its one
    /// resumption; the others stay as they are.
    pub fn resume_all(&mut self, outcomes: &Vec<ResumeOutcome>)
        requires
            every_pending_resumed(old(self).tasks(), outcomes@),
        ensures
            one_pass(old(self).tasks(), outcomes@, final(self).tasks()),
            final(self).next_id() == old(self).next_id(),
    {
        let mut i: usize = 0;
        while i < self.tasks.len()
            invariant
                outcomes@.len() == old(self).tasks().len(),
                self.tasks@.len() == old(self).tasks().len(),
                self.next_id == old(self).next_id(),
                i <= self.tasks@.len(),
                forall|j: int|
                    0 <= j < i ==> self.tasks@[j] == after_turn(old(self).tasks()[j], outcomes@[j]),
                forall|j: int| i <= j < self.tasks@.len() ==> self.tasks@[j] == old(self).tasks()[j],
            decreases self.tasks@.len() - i,
        {
            let t = self.tasks[i];
            let o = outcomes[i];
            if t.status == TaskStatus::Pending && o != ResumeOutcome::Skipped {
                let status = match o {
                    ResumeOutcome::Yielded => TaskStatus::Pending,
                    ResumeOutcome::Finished => TaskStatus::Finished,
                    _ => TaskStatus::Faulted,
                };
                let n = Task { id: t.id, resumptions: t.resumptions.saturating_add(1), status };
                self.tasks.set(i, n);
            }
            i = i + 1;
        }
    }
}

/// Scheduler fairness: a task that is pending before a pass and yields again
/// in it stays pending, with the point it reached kept (its turns counted on,
/// never reset); in the next fair pass it gets its turn again and goes on
/// from there.
pub proof fn lemma_scheduler_fairness(
    t0: Seq<Task>,
    os1: Seq<ResumeOutcome>,
    t1: Seq<Task>,
    os2: Seq<ResumeOutcome>,
    t2: Seq<Task>,
    i: int,
)
    requires
        one_pass(t0, os1, t1),
        one_pass(t1, os2, t2),
        0 <= i < t0.len(),
        t0[i].status == TaskStatus::Pending,
        t0[i].resumptions < u64::MAX - 1,
        every_pending_resumed(t0, os1),
        every_pending_resumed(t1, os2),
        os1[i] == ResumeOutcome::Yielded,
    ensures
        t1[i].status == TaskStatus::Pending,
        t1[i].id == t0[i].id,
        t1[i].resumptions == t0[i].resumptions + 1,
        t2[i].id == t0[i].id,
        t2[i].resumptions == t0[i].resumptions + 2,
{
}

} // verus!
