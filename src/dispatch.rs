//! The dispatch loop's decisions. The loop takes one task from the queue,
//! starts the work of each of its sides at once, and waits until every side
//! has finished before it reports the task's result and takes the next. So
//! tasks render one at a time, in the order the queue hands them out, however
//! quickly the sides of a later task would go.

use vstd::prelude::*;

use crate::render::{first_failure, job_view, lemma_plan_sides, render_plan, RenderError, RenderTask, Side, SideJob, SideOutcome, SideResult};

verus! {

/// What the dispatch loop must do next.
#[derive(Debug)]
pub enum DispatchStep {
    /// Run these sides' work, all at once, and report each side as it finishes.
    Start(Vec<SideJob>),
    /// Wait for another side to finish.
    Await,
    /// The task is over with this result; take the next one.
    Report(Result<(), RenderError>),
}

/// State of the dispatch loop: the sides of the task in flight, if any, and
/// how those that finished ended.
pub struct Dispatcher {
    left_configured: bool,
    right_configured: bool,
    sides: Vec<Side>,
    results: Vec<Option<SideResult>>,
    received: Ghost<nat>,
    reported: Ghost<nat>,
}

/// Position of `side` among `sides`, the first where it is there twice; -1
/// where it is not there.
pub open spec fn slot_of(sides: Seq<Side>, side: Side) -> int
    decreases sides.len(),
{
    if sides.len() == 0 {
        -1
    } else if sides[0] == side {
        0
    } else {
        let rest = slot_of(sides.drop_first(), side);
        if rest < 0 {
            -1
        } else {
            rest + 1
        }
    }
}

proof fn lemma_slot_of(sides: Seq<Side>, side: Side, k: int)
    requires
        0 <= k <= sides.len(),
        forall|j: int| 0 <= j < k ==> sides[j] != side,
    ensures
        k < sides.len() && sides[k] == side ==> slot_of(sides, side) == k,
        k == sides.len() ==> slot_of(sides, side) == -1,
    decreases k,
{
    if k > 0 {
        lemma_slot_of(sides.drop_first(), side, k - 1);
    }
}

/// `side` belongs to the task in flight and has not finished yet.
pub open spec fn awaits(sides: Seq<Side>, results: Seq<Option<SideResult>>, side: Side) -> bool {
    0 <= slot_of(sides, side) && results[slot_of(sides, side)] is None
}

/// The results once `outcome` is recorded against its side.
pub open spec fn recorded(sides: Seq<Side>, results: Seq<Option<SideResult>>, outcome: SideOutcome) -> Seq<
    Option<SideResult>,
> {
    results.update(slot_of(sides, outcome.side), Some(outcome.result))
}

/// Every side has finished.
pub open spec fn all_finished(results: Seq<Option<SideResult>>) -> bool {
    forall|k: int| 0 <= k < results.len() ==> (#[trigger] results[k]) is Some
}

/// The outcomes of the sides, in plan order, once all have finished.
pub open spec fn outcomes_of(sides: Seq<Side>, results: Seq<Option<SideResult>>) -> Seq<SideOutcome> {
    Seq::new(sides.len(), |k: int| SideOutcome { side: sides[k], result: results[k]->Some_0 })
}

impl Dispatcher {
    /// Whether a task is in flight.
    pub open spec fn is_busy(&self) -> bool {
        self.spec_sides().len() > 0
    }

    /// Tasks taken from the queue so far.
    pub closed spec fn spec_received(&self) -> nat {
        self.received@
    }

    /// Tasks whose result was reported so far.
    pub closed spec fn spec_reported(&self) -> nat {
        self.reported@
    }

    pub closed spec fn spec_left_configured(&self) -> bool {
        self.left_configured
    }

    pub closed spec fn spec_right_configured(&self) -> bool {
        self.right_configured
    }

    /// Sides of the task in flight, in plan order.
    pub closed spec fn spec_sides(&self) -> Seq<Side> {
        self.sides@
    }

    /// How each side of the task in flight ended, where it has.
    pub closed spec fn spec_results(&self) -> Seq<Option<SideResult>> {
        self.results@
    }

    pub closed spec fn wf(&self) -> bool {
        &&& self.sides@.len() == self.results@.len()
        &&& self.sides@.len() <= 2
        &&& (self.sides@.len() == 2 ==> self.sides@[0] != self.sides@[1])
        &&& self.received@ == self.reported@ + if self.sides@.len() > 0 {
            1nat
        } else {
            0nat
        }
    }

    /// At most one task is in flight: every task taken from the queue has
    /// been reported, but for the one in flight.
    pub proof fn lemma_one_task_in_flight(&self)
        requires
            self.wf(),
        ensures
            self.spec_received() == self.spec_reported() + if self.is_busy() {
                1nat
            } else {
                0nat
            },
    {
    }

    /// An idle dispatcher for the sides that are configured.
    pub fn new(left_configured: bool, right_configured: bool) -> (r: Dispatcher)
        ensures
            r.wf(),
            !r.is_busy(),
            r.spec_received() == 0,
            r.spec_reported() == 0,
            r.spec_left_configured() == left_configured,
            r.spec_right_configured() == right_configured,
    {
        Dispatcher {
            left_configured,
            right_configured,
            sides: Vec::new(),
            results: Vec::new(),
            received: Ghost(0),
            reported: Ghost(0),
        }
    }

    pub fn busy(&self) -> (r: bool)
        ensures
            r == self.is_busy(),
    {
        self.sides.len() > 0
    }

    /// Takes the next task from the queue. A task that cannot run is
    /// reported at once; otherwise its sides start and it stays in flight.
    pub fn on_received(&mut self, task: RenderTask) -> (r: DispatchStep)
        requires
            old(self).wf(),
            !old(self).is_busy(),
        ensures
            final(self).wf(),
            final(self).spec_received() == old(self).spec_received() + 1,
            final(self).spec_left_configured() == old(self).spec_left_configured(),
            final(self).spec_right_configured() == old(self).spec_right_configured(),
            render_plan(task, old(self).spec_left_configured(), old(self).spec_right_configured())
                matches Err(e) ==> (r matches DispatchStep::Report(res) && res == Err::<(), RenderError>(e))
                && !final(self).is_busy() && final(self).spec_reported() == old(self).spec_reported() + 1,
            render_plan(task, old(self).spec_left_configured(), old(self).spec_right_configured())
                matches Ok(plan) ==> (r matches DispatchStep::Start(jobs) && jobs@.map_values(
                |j: SideJob| job_view(j),
            ) == plan) && final(self).is_busy() && final(self).spec_sides() == plan.map_values(
                |p: (Side, crate::gray_image::GrayImage)| p.0,
            ) && final(self).spec_results() == Seq::new(plan.len(), |k: int| None::<SideResult>)
                && final(self).spec_reported() == old(self).spec_reported(),
            forall|k: int|
                0 <= k < final(self).spec_sides().len() ==> slot_of(
                    final(self).spec_sides(),
                    #[trigger] final(self).spec_sides()[k],
                ) == k,
    {
        self.received = Ghost(self.received@ + 1);
        proof {
            lemma_plan_sides(task, self.left_configured, self.right_configured);
        }
        let ghost plan_of_task = render_plan(task, self.left_configured, self.right_configured);
        match task.render(self.left_configured, self.right_configured) {
            Err(e) => {
                self.reported = Ghost(self.reported@ + 1);
                DispatchStep::Report(Err(e))
            },
            Ok(jobs) => {
                proof {
                    let plan = jobs@.map_values(|j: SideJob| job_view(j));
                    assert(plan_of_task == Ok::<Seq<(Side, crate::gray_image::GrayImage)>, RenderError>(plan));
                    assert(plan.len() == jobs@.len());
                    if jobs@.len() == 2 {
                        assert(plan[0].0 == jobs@[0].side);
                        assert(plan[1].0 == jobs@[1].side);
                    }
                }
                let ghost received = self.received@;
                let ghost reported = self.reported@;
                let mut i: usize = 0;
                while i < jobs.len()
                    invariant
                        self.received@ == received,
                        self.reported@ == reported,
                        received == reported + 1,
                        self.left_configured == old(self).left_configured,
                        self.right_configured == old(self).right_configured,
                        i <= jobs@.len(),
                        jobs@.len() <= 2,
                        jobs@.len() == 2 ==> jobs@[0].side != jobs@[1].side,
                        self.sides@ == jobs@.subrange(0, i as int).map_values(|j: SideJob| j.side),
                        self.results@ == Seq::new(i as nat, |k: int| None::<SideResult>),
                    decreases jobs@.len() - i,
                {
                    self.sides.push(jobs[i].side);
                    self.results.push(None);
                    i = i + 1;
                    assert(self.sides@ =~= jobs@.subrange(0, i as int).map_values(|j: SideJob| j.side));
                    assert(self.results@ =~= Seq::new(i as nat, |k: int| None::<SideResult>));
                }
                proof {
                    assert forall|k: int| 0 <= k < self.sides@.len() implies slot_of(
                        self.sides@,
                        #[trigger] self.sides@[k],
                    ) == k by {
                        lemma_slot_of(self.sides@, self.sides@[k], k);
                    }
                }
                DispatchStep::Start(jobs)
            },
        }
    }

    /// Records how one side of the task in flight ended. Once every side
    /// has, the task's result is reported: the first failure in plan order,
    /// else success. A side that is not awaited is ignored.
    pub fn on_side_finished(&mut self, outcome: SideOutcome) -> (r: DispatchStep)
        requires
            old(self).wf(),
        ensures
            final(self).wf(),
            final(self).spec_received() == old(self).spec_received(),
            final(self).spec_left_configured() == old(self).spec_left_configured(),
            final(self).spec_right_configured() == old(self).spec_right_configured(),
            !awaits(old(self).spec_sides(), old(self).spec_results(), outcome.side) ==> {
                &&& r is Await
                &&& final(self).spec_sides() == old(self).spec_sides()
                &&& final(self).spec_results() == old(self).spec_results()
                &&& final(self).spec_reported() == old(self).spec_reported()
            },
            awaits(old(self).spec_sides(), old(self).spec_results(), outcome.side) ==> {
                let results = recorded(old(self).spec_sides(), old(self).spec_results(), outcome);
                if all_finished(results) {
                    &&& r matches DispatchStep::Report(result) && result == first_failure(
                        outcomes_of(old(self).spec_sides(), results),
                    )
                    &&& !final(self).is_busy()
                    &&& final(self).spec_reported() == old(self).spec_reported() + 1
                    &&& final(self).spec_reported() == final(self).spec_received()
                } else {
                    &&& r is Await
                    &&& final(self).spec_sides() == old(self).spec_sides()
                    &&& final(self).spec_results() == results
                    &&& final(self).spec_reported() == old(self).spec_reported()
                }
            },
    {
        let mut k: usize = 0;
        while k < self.sides.len() && self.sides[k] != outcome.side
            invariant
                k <= self.sides@.len(),
                forall|j: int| 0 <= j < k ==> self.sides@[j] != outcome.side,
            decreases self.sides@.len() - k,
        {
            k = k + 1;
        }
        proof {
            lemma_slot_of(self.sides@, outcome.side, k as int);
        }
        if k == self.sides.len() {
            return DispatchStep::Await;
        }
        if self.results[k].is_some() {
            return DispatchStep::Await;
        }
        self.results.set(k, Some(outcome.result));
        let mut done = true;
        let mut j: usize = 0;
        while j < self.results.len()
            invariant
                j <= self.results@.len(),
                done <==> forall|m: int| 0 <= m < j ==> self.results@[m] is Some,
            decreases self.results@.len() - j,
        {
            if self.results[j].is_none() {
                done = false;
            }
            j = j + 1;
        }
        if !done {
            return DispatchStep::Await;
        }
        let mut outcomes: Vec<SideOutcome> = Vec::new();
        let mut m: usize = 0;
        while m < self.sides.len()
            invariant
                m <= self.sides@.len(),
                self.sides@.len() == self.results@.len(),
                forall|q: int| 0 <= q < self.results@.len() ==> self.results@[q] is Some,
                outcomes@ == outcomes_of(self.sides@, self.results@).subrange(0, m as int),
            decreases self.sides@.len() - m,
        {
            let result = match self.results[m] {
                Some(res) => res,
                None => SideResult::Rendered,
            };
            outcomes.push(SideOutcome { side: self.sides[m], result });
            m = m + 1;
            assert(outcomes@ =~= outcomes_of(self.sides@, self.results@).subrange(0, m as int));
        }
        assert(outcomes@ =~= outcomes_of(self.sides@, self.results@));
        let result = crate::render::finish(&outcomes);
        self.sides.clear();
        self.results.clear();
        self.reported = Ghost(self.reported@ + 1);
        DispatchStep::Report(result)
    }
}

} // verus!
