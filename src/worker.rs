use vstd::prelude::*;

use crate::channel::Delivery;
use crate::message::Message;

verus! {

/// Where a worker stands in its loop.
#[derive(Debug, Clone, Copy, PartialEq, Eq, Structural)]
pub enum WorkerPhase {
    /// Asking the channel for its next message.
    Waiting,
    /// Running a task it was handed.
    Executing,
    /// Stopped for good.
    Terminated,
}

/// How a task's run ended.
#[derive(Debug, Clone, Copy, PartialEq, Eq, Structural)]
pub enum TaskOutcome {
    Completed,
    Panicked,
}

/// What the worker's thread must do next.
pub enum Step<T> {
    /// Run the carried task with no lock held, then report how the run went.
    Run(T),
    /// Nothing is queued: block until more work arrives, then ask again.
    Wait,
    /// A stop signal arrived: leave the loop.
    Exit,
    /// The channel ended without a stop signal for this worker: leave the
    /// loop and report it, since that breaks the pool's protocol.
    Abandon,
}

/// The decision state of one worker: its ordinal and its phase.
pub struct WorkerState {
    pub id: usize,
    pub phase: WorkerPhase,
}

/// The phase a waiting worker moves to on a delivery.
pub open spec fn phase_after<T>(d: Delivery<T>) -> WorkerPhase {
    match d {
        Delivery::Received(Message::Work(_)) => WorkerPhase::Executing,
        Delivery::Received(Message::Terminate) => WorkerPhase::Terminated,
        Delivery::Empty => WorkerPhase::Waiting,
        Delivery::Drained => WorkerPhase::Terminated,
    }
}

/// The step a waiting worker takes on a delivery.
pub open spec fn step_for<T>(d: Delivery<T>) -> Step<T> {
    match d {
        Delivery::Received(Message::Work(t)) => Step::Run(t),
        Delivery::Received(Message::Terminate) => Step::Exit,
        Delivery::Empty => Step::Wait,
        Delivery::Drained => Step::Abandon,
    }
}

impl WorkerState {
    /// A fresh worker, waiting for its first message.
    pub fn new(id: usize) -> (r: WorkerState)
        ensures
            r.id == id,
            r.phase == WorkerPhase::Waiting,
    {
        WorkerState { id, phase: WorkerPhase::Waiting }
    }

    /// Decides what to do with what the channel handed out: run a task,
    /// wait, or stop.
    pub fn on_delivery<T>(&mut self, d: Delivery<T>) -> (r: Step<T>)
        requires
            old(self).phase == WorkerPhase::Waiting,
        ensures
            final(self).id == old(self).id,
            final(self).phase == phase_after(d),
            r == step_for(d),
    {
        match d {
            Delivery::Received(Message::Work(t)) => {
                self.phase = WorkerPhase::Executing;
                Step::Run(t)
            },
            Delivery::Received(Message::Terminate) => {
                self.phase = WorkerPhase::Terminated;
                Step::Exit
            },
            Delivery::Empty => Step::Wait,
            Delivery::Drained => {
                self.phase = WorkerPhase::Terminated;
                Step::Abandon
            },
        }
    }

    /// Records the end of a task. The worker goes back to waiting whether
    /// the task completed or panicked; the result says whether the failure
    /// must be reported.
    pub fn on_task_end(&mut self, outcome: TaskOutcome) -> (report: bool)
        requires
            old(self).phase == WorkerPhase::Executing,
        ensures
            final(self).id == old(self).id,
            final(self).phase == WorkerPhase::Waiting,
            report == (outcome == TaskOutcome::Panicked),
    {
        self.phase = WorkerPhase::Waiting;
        match outcome {
            TaskOutcome::Completed => false,
            TaskOutcome::Panicked => true,
        }
    }

    /// Whether the worker has left its loop.
    pub fn is_terminated(&self) -> (r: bool)
        ensures
            r == (self.phase == WorkerPhase::Terminated),
    {
        match self.phase {
            WorkerPhase::Terminated => true,
            _ => false,
        }
    }
}

} // verus!
