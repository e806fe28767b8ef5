use vstd::prelude::*;

verus! {

/// What travels on the control channel from the pool to its workers.
pub enum Message<T> {
    /// A task to run exactly once.
    Work(T),
    /// A stop signal: the worker that receives it exits.
    Terminate,
}

impl<T> Message<T> {
    pub fn is_terminate(&self) -> (r: bool)
        ensures
            r == (*self is Terminate),
    {
        match self {
            Message::Work(_) => false,
            Message::Terminate => true,
        }
    }
}

/// The messages that carry the tasks `tasks`, in order.
pub open spec fn work_messages<T>(tasks: Seq<T>) -> Seq<Message<T>> {
    Seq::new(tasks.len(), |i: int| Message::Work(tasks[i]))
}

/// `n` stop signals.
pub open spec fn terminate_messages<T>(n: nat) -> Seq<Message<T>> {
    Seq::new(n, |i: int| Message::<T>::Terminate)
}

} // verus!
