//! The order in which a worker runs queued tasks: first in, first out, one
//! at a time, each ending exactly once.
use vstd::prelude::*;

verus! {

/// The tasks a worker was given: waiting ones in the order they came, at
/// most one running, and (as history) every task added and every task
/// that ended, in order.
pub struct TaskQueue<T> {
    waiting: Vec<T>,
    running: Option<T>,
    added: Ghost<Seq<T>>,
    finished: Ghost<Seq<T>>,
}

/// The plain content of a queue.
pub struct TaskQueueView<T> {
    /// Every task added, in order.
    pub added: Seq<T>,
    /// Every task that ended, in the order they ended.
    pub finished: Seq<T>,
    /// The task that runs, if one does.
    pub running: Option<T>,
    /// The tasks that wait, in the order they will run.
    pub waiting: Seq<T>,
}

/// The running task as a sequence of at most one task.
pub open spec fn running_seq<T>(running: Option<T>) -> Seq<T> {
    match running {
        Some(t) => seq![t],
        None => Seq::empty(),
    }
}

/// What holds of every queue: the tasks that ended, then the running one,
/// then the waiting ones are exactly the tasks added, in order.
pub open spec fn queue_order<T>(v: TaskQueueView<T>) -> bool {
    v.added == v.finished + running_seq(v.running) + v.waiting
}

impl<T> View for TaskQueue<T> {
    type V = TaskQueueView<T>;

    closed spec fn view(&self) -> TaskQueueView<T> {
        TaskQueueView {
            added: self.added@,
            finished: self.finished@,
            running: self.running,
            waiting: self.waiting@,
        }
    }
}

impl<T> TaskQueue<T> {
    #[verifier::type_invariant]
    spec fn in_order(&self) -> bool {
        self.added@ == self.finished@ + running_seq(self.running) + self.waiting@
    }

    /// An empty queue.
    pub fn new() -> (r: Self)
        ensures
            r@.added == Seq::<T>::empty(),
            r@.finished == Seq::<T>::empty(),
            r@.running == None::<T>,
            r@.waiting == Seq::<T>::empty(),
            queue_order(r@),
    {
        let r = TaskQueue {
            waiting: Vec::new(),
            running: None,
            added: Ghost(Seq::empty()),
            finished: Ghost(Seq::empty()),
        };
        assert(r.added@ =~= r.finished@ + running_seq(r.running) + r.waiting@);
        r
    }

    /// Whether a task runs.
    pub fn is_busy(&self) -> (r: bool)
        ensures
            r == self@.running is Some,
    {
        self.running.is_some()
    }

    /// Queues a task behind the waiting ones.
    pub fn add(&mut self, task: T)
        ensures
            queue_order(final(self)@),
            final(self)@.added == old(self)@.added.push(task),
            final(self)@.waiting == old(self)@.waiting.push(task),
            final(self)@.finished == old(self)@.finished,
            final(self)@.running == old(self)@.running,
    {
        proof {
            use_type_invariant(&*self);
        }
        let mut taken = TaskQueue::new();
        std::mem::swap(self, &mut taken);
        proof {
            use_type_invariant(&taken);
        }
        let TaskQueue { mut waiting, running, added, finished } = taken;
        let ghost old_waiting = waiting@;
        waiting.push(task);
        let ghost new_added = added@.push(task);
        assert(new_added =~= finished@ + running_seq(running) + waiting@);
        *self = TaskQueue { waiting, running, added: Ghost(new_added), finished };
    }

    /// The running task, if one runs.
    pub fn running(&self) -> (r: Option<&T>)
        ensures
            match r {
                Some(t) => self@.running == Some(*t),
                None => self@.running is None,
            },
    {
        match &self.running {
            Some(t) => Some(t),
            None => None,
        }
    }

    /// Starts the first waiting task when none runs and says so; otherwise
    /// changes nothing and says `false`.
    pub fn take_next(&mut self) -> (r: bool)
        ensures
            queue_order(final(self)@),
            final(self)@.added == old(self)@.added,
            final(self)@.finished == old(self)@.finished,
            r == (old(self)@.running is None && old(self)@.waiting.len() > 0),
            r ==> (final(self)@.running == Some(old(self)@.waiting[0])
                && final(self)@.waiting == old(self)@.waiting.drop_first()),
            !r ==> (final(self)@.running == old(self)@.running
                && final(self)@.waiting == old(self)@.waiting),
    {
        proof {
            use_type_invariant(&*self);
        }
        if self.running.is_some() || self.waiting.len() == 0 {
            return false;
        }
        let mut taken = TaskQueue::new();
        std::mem::swap(self, &mut taken);
        proof {
            use_type_invariant(&taken);
        }
        let TaskQueue { mut waiting, running, added, finished } = taken;
        let ghost before = waiting@;
        let first = waiting.remove(0);
        assert(waiting@ =~= before.drop_first());
        assert(added@ =~= finished@ + running_seq(Some(first)) + waiting@);
        *self = TaskQueue { waiting, running: Some(first), added, finished };
        true
    }

    /// Ends the running task, if one runs: it joins the ended ones and is
    /// handed back; otherwise changes nothing and gives `None`.
    pub fn finish(&mut self) -> (r: Option<T>)
        ensures
            queue_order(final(self)@),
            final(self)@.added == old(self)@.added,
            final(self)@.waiting == old(self)@.waiting,
            final(self)@.running == None::<T>,
            match old(self)@.running {
                Some(t) => r == Some(t) && final(self)@.finished == old(self)@.finished.push(t),
                None => r is None && final(self)@.finished == old(self)@.finished,
            },
    {
        proof {
            use_type_invariant(&*self);
        }
        let mut taken = TaskQueue::new();
        std::mem::swap(self, &mut taken);
        proof {
            use_type_invariant(&taken);
        }
        let TaskQueue { waiting, running, added, finished } = taken;
        match running {
            Some(t) => {
                let ghost done = finished@.push(t);
                assert(added@ =~= done + running_seq(None::<T>) + waiting@);
                *self = TaskQueue { waiting, running: None, added, finished: Ghost(done) };
                Some(t)
            },
            None => {
                *self = TaskQueue { waiting, running: None, added, finished };
                None
            },
        }
    }
}

} // verus!
