//! A subscriber's tally of the event stream: how many tasks are in flight,
//! the most that ever were, and which tasks have finished.

use crate::lifecycle::{
    admissible, count_finished, history, in_flight, law_in_flight_within_limit,
    law_lifecycle_in_order,
};
use crate::task::{TaskEvent, TaskId};
use std::collections::HashSet;
use vstd::prelude::*;

verus! {

broadcast use vstd::std_specs::hash::group_hash_axioms;

/// What a monitor has tallied.
pub ghost struct Tally {
    /// Tasks started and not yet finished, by the events seen.
    pub in_flight: nat,
    /// The most tasks that were in flight at once.
    pub peak: nat,
    /// The identities of the tasks seen to finish.
    pub finished: Set<u128>,
}

impl Tally {
    /// The tally before any event.
    pub open spec fn start() -> Tally {
        Tally { in_flight: 0, peak: 0, finished: Set::empty() }
    }

    /// The tally after one more event. A start adds a task in flight and
    /// may raise the peak; a finish takes one away, if there is one, and
    /// records the task; a `Queued` event changes nothing.
    pub open spec fn after(self, event: TaskEvent) -> Tally {
        match event {
            TaskEvent::Queued { .. } => self,
            TaskEvent::Started { .. } => Tally {
                in_flight: self.in_flight + 1,
                peak: if self.in_flight + 1 > self.peak {
                    self.in_flight + 1
                } else {
                    self.peak
                },
                finished: self.finished,
            },
            TaskEvent::Finished { task_id, .. } => Tally {
                in_flight: if self.in_flight > 0 {
                    (self.in_flight - 1) as nat
                } else {
                    0
                },
                peak: self.peak,
                finished: self.finished.insert(task_id.0),
            },
        }
    }

    /// The tally after every event of `log`, from the start.
    pub open spec fn of(log: Seq<TaskEvent>) -> Tally
        decreases log.len(),
    {
        if log.len() == 0 {
            Tally::start()
        } else {
            Tally::of(log.drop_last()).after(log.last())
        }
    }
}

/// The verdict on a stream in which more tasks were in flight at once than
/// the limit allows.
#[derive(Debug, Clone, Copy, PartialEq, Eq)]
pub struct ConcurrencyExceeded {
    pub observed: usize,
    pub limit: usize,
}

/// Tallies the events of a stream, one at a time.
pub struct ConcurrencyMonitor {
    in_flight: usize,
    peak: usize,
    finished: HashSet<u128>,
    seen: Ghost<Seq<TaskEvent>>,
}

impl View for ConcurrencyMonitor {
    type V = Tally;

    closed spec fn view(&self) -> Tally {
        Tally {
            in_flight: self.in_flight as nat,
            peak: self.peak as nat,
            finished: self.finished@,
        }
    }
}

impl ConcurrencyMonitor {
    /// Whether the tally is that of the events seen. Every monitor made by
    /// `new` and fed by `observe` is.
    pub closed spec fn well_formed(&self) -> bool {
        self@ == Tally::of(self.seen@)
    }

    /// The events this monitor has seen, oldest first.
    pub closed spec fn seen(&self) -> Seq<TaskEvent> {
        self.seen@
    }

    /// A monitor that has seen no event.
    pub fn new() -> (monitor: ConcurrencyMonitor)
        ensures
            monitor.well_formed(),
            monitor.seen() == Seq::<TaskEvent>::empty(),
            monitor@ == Tally::start(),
    {
        ConcurrencyMonitor {
            in_flight: 0,
            peak: 0,
            finished: HashSet::new(),
            seen: Ghost(Seq::empty()),
        }
    }

    /// Takes one more event into the tally. A start needs room in the
    /// count: with `usize::MAX` tasks in flight there is none.
    pub fn observe(&mut self, event: &TaskEvent)
        requires
            *event is Started ==> old(self)@.in_flight < usize::MAX,
        ensures
            old(self).well_formed() ==> final(self).well_formed(),
            final(self).seen() == old(self).seen().push(*event),
            final(self)@ == old(self)@.after(*event),
    {
        proof {
            assert(self.seen@.push(*event).drop_last() =~= self.seen@);
        }
        match event {
            TaskEvent::Queued { .. } => {},
            TaskEvent::Started { .. } => {
                self.in_flight = self.in_flight + 1;
                if self.in_flight > self.peak {
                    self.peak = self.in_flight;
                }
            },
            TaskEvent::Finished { task_id, .. } => {
                if self.in_flight > 0 {
                    self.in_flight = self.in_flight - 1;
                }
                self.finished.insert(task_id.0);
            },
        }
        proof {
            self.seen@ = self.seen@.push(*event);
        }
    }

    /// Tasks in flight by the events seen so far.
    pub fn in_flight(&self) -> (count: usize)
        ensures
            count == self@.in_flight,
    {
        self.in_flight
    }

    /// The most tasks that were in flight at once.
    pub fn max_in_flight(&self) -> (count: usize)
        ensures
            count == self@.peak,
    {
        self.peak
    }

    /// How many distinct tasks were seen to finish.
    pub fn finished_count(&self) -> (count: usize)
        ensures
            count == self@.finished.len(),
    {
        self.finished.len()
    }

    /// Whether `task` was seen to finish.
    pub fn has_finished(&self, task: &TaskId) -> (seen: bool)
        ensures
            seen == self@.finished.contains(task.0),
    {
        self.finished.contains(&task.0)
    }

    /// The verdict on the stream seen so far: an error, with the peak, if
    /// and only if more than `limit` tasks were ever in flight at once. It
    /// is never an error where the events seen follow the rules of a pool
    /// of `limit` workers.
    pub fn verdict(&self, limit: usize) -> (verdict: Result<(), ConcurrencyExceeded>)
        ensures
            verdict is Ok <==> self@.peak <= limit,
            verdict matches Err(exceeded) ==> exceeded.observed == self@.peak && exceeded.limit
                == limit,
            self.well_formed() && admissible(self.seen(), limit) ==> verdict is Ok,
    {
        proof {
            if self.well_formed() && admissible(self.seen(), limit) {
                lemma_tally(self.seen@, limit);
            }
        }
        if self.peak > limit {
            Err(ConcurrencyExceeded { observed: self.peak, limit })
        } else {
            Ok(())
        }
    }
}

/// What the rules keep true of a tally taken from the start of a log.
proof fn lemma_tally(log: Seq<TaskEvent>, limit: usize)
    requires
        admissible(log, limit),
    ensures
        Tally::of(log).in_flight == in_flight(log),
        Tally::of(log).peak <= limit,
        Tally::of(log).finished.finite(),
        Tally::of(log).finished.len() == count_finished(log),
        forall|bits: u128| #[trigger]
            Tally::of(log).finished.contains(bits) ==> history(log, TaskId(bits)).len() == 3,
    decreases log.len(),
{
    law_in_flight_within_limit(log, limit, log.len() as int);
    assert(log.take(log.len() as int) =~= log);
    if log.len() > 0 {
        let before = log.drop_last();
        lemma_tally(before, limit);
        law_in_flight_within_limit(before, limit, before.len() as int);
        assert(before.take(before.len() as int) =~= before);
        law_lifecycle_in_order(log, limit, log.last().subject());
        assert forall|bits: u128| #[trigger]
            Tally::of(log).finished.contains(bits) implies history(log, TaskId(bits)).len()
            == 3 by {
            if Tally::of(before).finished.contains(bits) {
                law_lifecycle_in_order(log, limit, TaskId(bits));
            }
        }
        match log.last() {
            TaskEvent::Finished { task_id, .. } => {
                assert(TaskId(task_id.0) == task_id);
                assert(!Tally::of(before).finished.contains(task_id.0));
            },
            _ => {},
        }
    }
}

/// A monitor that has seen an admissible log from its start counts the
/// tasks in flight exactly, never saw more of them at once than the pool
/// has workers, and has recorded one task for each `Finished` event. Its
/// verdict for the pool's limit is therefore `Ok`.
pub proof fn law_monitor_within_limit(log: Seq<TaskEvent>, limit: usize)
    requires
        admissible(log, limit),
    ensures
        Tally::of(log).in_flight == in_flight(log),
        Tally::of(log).peak <= limit,
        Tally::of(log).finished.len() == count_finished(log),
{
    lemma_tally(log, limit);
}

} // verus!
