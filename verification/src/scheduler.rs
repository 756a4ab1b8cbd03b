//! The scheduler of a batch: which record may start, and when the batch is
//! complete.
//!
//! The scheduler runs nothing itself. It counts: the caller asks what to do
//! next, starts the record it is given, and reports each record that has
//! finished. At no time are more records in flight than the cap allows, and
//! the batch is complete only when every record has finished.

use vstd::prelude::*;

verus! {

/// The most records that are in flight at a time where no other cap is set.
pub const DEFAULT_CONCURRENCY: usize = 10;

/// What the caller is to do next for a batch.
#[derive(Clone, Copy, Debug, PartialEq, Eq, Structural)]
pub enum Dispatch {
    /// Start the record with this index.
    Start(usize),
    /// Wait until a record in flight has finished, and report it.
    Wait,
    /// Nothing: every record has finished.
    Complete,
}

/// The state of a scheduler as plain numbers.
pub struct SchedulerView {
    /// The most records that may be in flight at a time.
    pub capacity: nat,
    /// The number of records in the batch.
    pub total: nat,
    /// The number of records that have been started.
    pub started: nat,
    /// The number of records that have finished.
    pub finished: nat,
}

impl SchedulerView {
    /// What holds of every scheduler: the cap is at least one, no record
    /// finishes before it starts or starts twice, and the records in flight
    /// are within the cap.
    pub open spec fn wf(self) -> bool {
        &&& self.capacity >= 1
        &&& self.finished <= self.started <= self.total <= usize::MAX
        &&& self.started - self.finished <= self.capacity
    }

    /// The number of records in flight.
    pub open spec fn in_flight(self) -> nat {
        (self.started - self.finished) as nat
    }

    /// The scheduler of a batch of which nothing has started.
    pub open spec fn fresh(total: nat, capacity: nat) -> SchedulerView {
        SchedulerView { capacity, total, started: 0, finished: 0 }
    }

    /// Whether a record may start now: one is left to start, and a slot is
    /// free.
    pub open spec fn may_start(self) -> bool {
        self.started < self.total && self.in_flight() < self.capacity
    }

    /// What the caller is to do next: start the next record while one may
    /// start, else wait while records are unfinished, else nothing.
    pub open spec fn decision(self) -> Dispatch {
        if self.may_start() {
            Dispatch::Start(self.started as usize)
        } else if self.finished < self.total {
            Dispatch::Wait
        } else {
            Dispatch::Complete
        }
    }

    /// The scheduler after it has been asked what to do next.
    pub open spec fn asked(self) -> SchedulerView {
        if self.may_start() {
            SchedulerView { started: self.started + 1, ..self }
        } else {
            self
        }
    }

    /// The scheduler after it has been told that a record has finished.
    /// With no record in flight nothing changes.
    pub open spec fn told(self) -> SchedulerView {
        if self.finished < self.started {
            SchedulerView { finished: self.finished + 1, ..self }
        } else {
            self
        }
    }

    /// The scheduler after a round: as many records as may start are
    /// started together, and all of them finish.
    pub open spec fn after_round(self) -> SchedulerView {
        let free = self.capacity - self.in_flight();
        let left = self.total - self.started;
        let started = self.started + if left < free {
            left
        } else {
            free
        };
        SchedulerView { started: started as nat, finished: started as nat, ..self }
    }

    /// The scheduler after a number of rounds.
    pub open spec fn after_rounds(self, rounds: nat) -> SchedulerView
        decreases rounds,
    {
        if rounds == 0 {
            self
        } else {
            self.after_rounds((rounds - 1) as nat).after_round()
        }
    }
}

/// The number of rounds that a batch takes when its records run in rounds of
/// as many as the cap allows: the size of the batch divided by the cap,
/// rounded up.
pub open spec fn rounds_needed(total: nat, capacity: nat) -> nat
    recommends
        capacity >= 1,
{
    ((total + capacity - 1) / capacity as int) as nat
}

/// One step of a scheduler's life: it is asked what to do next, or told that
/// a record has finished.
pub enum Call {
    Ask,
    Tell,
}

/// The scheduler after a run of calls.
pub open spec fn after_calls(scheduler: SchedulerView, calls: Seq<Call>) -> SchedulerView
    decreases calls.len(),
{
    if calls.len() == 0 {
        scheduler
    } else {
        let before = after_calls(scheduler, calls.drop_last());
        match calls.last() {
            Call::Ask => before.asked(),
            Call::Tell => before.told(),
        }
    }
}

/// The cap holds at all times: whatever is asked of a scheduler and
/// whatever it is told, in whatever order, the records in flight never
/// exceed the cap.
pub proof fn lemma_never_over_capacity(scheduler: SchedulerView, calls: Seq<Call>)
    requires
        scheduler.wf(),
    ensures
        after_calls(scheduler, calls).wf(),
        after_calls(scheduler, calls).in_flight() <= scheduler.capacity,
        after_calls(scheduler, calls).capacity == scheduler.capacity,
    decreases calls.len(),
{
    if calls.len() > 0 {
        lemma_never_over_capacity(scheduler, calls.drop_last());
        let before = after_calls(scheduler, calls.drop_last());
        assert(before.asked().wf());
        assert(before.told().wf());
    }
}

/// A batch is complete only when every record has finished, and while it is
/// not, the scheduler holds no record back without need: it makes the caller
/// wait only when every slot is taken or every record has been started.
pub proof fn lemma_decision_is_fair(scheduler: SchedulerView)
    requires
        scheduler.wf(),
    ensures
        scheduler.decision() is Complete <==> scheduler.finished == scheduler.total,
        scheduler.decision() is Wait ==> scheduler.in_flight() >= 1 && (scheduler.in_flight()
            == scheduler.capacity || scheduler.started == scheduler.total),
        scheduler.decision() matches Dispatch::Start(index) ==> index == scheduler.started
            && scheduler.in_flight() < scheduler.capacity,
{
}

proof fn lemma_rounds_progress(total: nat, capacity: nat, rounds: nat)
    requires
        capacity >= 1,
        total <= usize::MAX,
    ensures
        SchedulerView::fresh(total, capacity).after_rounds(rounds).wf(),
        SchedulerView::fresh(total, capacity).after_rounds(rounds).total == total,
        SchedulerView::fresh(total, capacity).after_rounds(rounds).finished == SchedulerView::fresh(
            total,
            capacity,
        ).after_rounds(rounds).started,
        SchedulerView::fresh(total, capacity).after_rounds(rounds).started == if rounds * capacity
            < total {
            rounds * capacity
        } else {
            total
        },
    decreases rounds,
{
    let fresh = SchedulerView::fresh(total, capacity);
    if rounds > 0 {
        let before = fresh.after_rounds((rounds - 1) as nat);
        lemma_rounds_progress(total, capacity, (rounds - 1) as nat);
        assert(fresh.after_rounds(rounds) == before.after_round());
        assert(rounds * capacity == (rounds - 1) * capacity + capacity) by (nonlinear_arith);
        assert(before.capacity == capacity) by {
            lemma_rounds_keep_capacity(fresh, (rounds - 1) as nat);
        }
        assert(before.in_flight() == 0);
    } else {
        assert(rounds * capacity == 0) by (nonlinear_arith)
            requires
                rounds == 0,
        ;
    }
}

proof fn lemma_rounds_keep_capacity(scheduler: SchedulerView, rounds: nat)
    ensures
        scheduler.after_rounds(rounds).capacity == scheduler.capacity,
    decreases rounds,
{
    if rounds > 0 {
        lemma_rounds_keep_capacity(scheduler, (rounds - 1) as nat);
    }
}

/// Run in rounds of as many records as the cap allows, a batch is through
/// after its size divided by the cap, rounded up, and not a round earlier.
pub proof fn lemma_rounds_needed(total: nat, capacity: nat, rounds: nat)
    requires
        capacity >= 1,
        total <= usize::MAX,
    ensures
        SchedulerView::fresh(total, capacity).after_rounds(rounds).decision() is Complete
            <==> rounds >= rounds_needed(total, capacity),
{
    let needed = rounds_needed(total, capacity);
    lemma_rounds_progress(total, capacity, rounds);
    assert(needed * capacity >= total && (needed == 0 || (needed - 1) * capacity < total))
        by (nonlinear_arith)
        requires
            capacity >= 1,
            needed == (total + capacity - 1) / capacity as int,
    ;
    if rounds >= needed {
        assert(rounds * capacity >= total) by (nonlinear_arith)
            requires
                rounds >= needed,
                needed * capacity >= total,
                capacity >= 1,
        ;
    } else {
        assert(rounds * capacity < total) by (nonlinear_arith)
            requires
                rounds <= needed - 1,
                (needed - 1) * capacity < total,
                capacity >= 1,
        ;
    }
}

/// The scheduler of a batch.
pub struct Scheduler {
    capacity: usize,
    total: usize,
    started: usize,
    finished: usize,
}

impl View for Scheduler {
    type V = SchedulerView;

    closed spec fn view(&self) -> SchedulerView {
        SchedulerView {
            capacity: self.capacity as nat,
            total: self.total as nat,
            started: self.started as nat,
            finished: self.finished as nat,
        }
    }
}

impl Scheduler {
    #[verifier::type_invariant]
    spec fn well_formed(self) -> bool {
        self@.wf()
    }

    /// The scheduler for a batch of `total` records of which at most
    /// `capacity` are in flight at a time. A cap of zero would let no record
    /// start: there is no scheduler for it.
    pub fn new(total: usize, capacity: usize) -> (scheduler: Option<Scheduler>)
        ensures
            scheduler is Some == (capacity >= 1),
            scheduler matches Some(s) ==> s@ == SchedulerView::fresh(total as nat, capacity as nat)
                && s@.wf(),
    {
        if capacity >= 1 {
            Some(Scheduler { capacity, total, started: 0, finished: 0 })
        } else {
            None
        }
    }

    /// Says what to do next. A record that this call starts counts as in
    /// flight from now on.
    pub fn next(&mut self) -> (dispatch: Dispatch)
        ensures
            dispatch == old(self)@.decision(),
            final(self)@ == old(self)@.asked(),
            final(self)@.wf(),
    {
        proof {
            use_type_invariant(&*self);
        }
        if self.started < self.total && self.started - self.finished < self.capacity {
            let index = self.started;
            self.started = self.started + 1;
            Dispatch::Start(index)
        } else if self.finished < self.total {
            Dispatch::Wait
        } else {
            Dispatch::Complete
        }
    }

    /// Takes note that a record in flight has finished. Returns whether one
    /// was in flight; with none in flight nothing changes.
    pub fn record_finished(&mut self) -> (freed: bool)
        ensures
            freed == (old(self)@.in_flight() >= 1),
            final(self)@ == old(self)@.told(),
            final(self)@.wf(),
    {
        proof {
            use_type_invariant(&*self);
        }
        if self.finished < self.started {
            self.finished = self.finished + 1;
            true
        } else {
            false
        }
    }

    /// The number of records in flight.
    pub fn in_flight(&self) -> (n: usize)
        ensures
            n == self@.in_flight(),
            n <= self@.capacity,
    {
        proof {
            use_type_invariant(self);
        }
        self.started - self.finished
    }

    /// The most records that may be in flight at a time.
    pub fn capacity(&self) -> (n: usize)
        ensures
            n == self@.capacity,
    {
        self.capacity
    }

    /// The number of records that have finished.
    pub fn finished(&self) -> (n: usize)
        ensures
            n == self@.finished,
    {
        self.finished
    }

    /// Whether every record has finished.
    pub fn is_complete(&self) -> (complete: bool)
        ensures
            complete == (self@.finished == self@.total),
    {
        self.finished == self.total
    }
}

} // verus!
