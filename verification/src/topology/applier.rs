//! Applying a topology: the items one after the other, each by the calls of
//! its plan, stopping at the first call that fails.
//!
//! The applier makes no call itself. It hands out one call at a time; the
//! owner of the channel makes it and reports the outcome.

use vstd::prelude::*;
use crate::topology::{Command, CommandView, Topology, TopologyItem};

verus! {

/// What the owner of the channel has to do next.
#[derive(Debug)]
pub enum ApplyStep {
    /// Make this call, which belongs to the item at index `item`, and report
    /// its outcome.
    Run { item: usize, command: Command },
    /// Every item was applied.
    Finished,
    /// A call of the item at index `item` failed, for the reason given. The
    /// items after it are not attempted.
    Failed { item: usize, reason: String },
}

/// Mathematical value of an [`ApplyStep`].
pub enum StepView {
    Run { item: nat, command: CommandView },
    Finished,
    Failed { item: nat, reason: Seq<char> },
}

impl View for ApplyStep {
    type V = StepView;

    open spec fn view(&self) -> StepView {
        match self {
            ApplyStep::Run { item, command } => StepView::Run { item: *item as nat, command: command@ },
            ApplyStep::Finished => StepView::Finished,
            ApplyStep::Failed { item, reason } => StepView::Failed {
                item: *item as nat,
                reason: reason@,
            },
        }
    }
}

/// Progress through a topology.
#[derive(Debug)]
pub struct TopologyApplier {
    item: usize,
    step: usize,
    awaiting: bool,
    failure: Option<(usize, String)>,
}

/// Mathematical value of a [`TopologyApplier`].
pub struct ApplierView {
    /// The number of items applied so far, which is the index of the item
    /// in progress.
    pub item: nat,
    /// The position, in the plan of the item in progress, of the next call.
    pub step: nat,
    /// A call was handed out and its outcome is not reported yet.
    pub awaiting: bool,
    /// The index of the item that failed, and the reason.
    pub failure: Option<(nat, Seq<char>)>,
}

/// The plans of the items of a topology, in order.
pub open spec fn plans(items: Seq<TopologyItem>) -> Seq<Seq<CommandView>> {
    items.map_values(|item: TopologyItem| item.plan())
}

/// The outcome of a call as the applier sees it: success, or the reason of
/// the failure.
pub open spec fn outcome_view(outcome: Result<(), String>) -> Result<(), Seq<char>> {
    match outcome {
        Ok(_) => Ok(()),
        Err(reason) => Err(reason@),
    }
}

impl ApplierView {
    /// Nothing applied, nothing handed out.
    pub open spec fn start() -> ApplierView {
        ApplierView { item: 0, step: 0, awaiting: false, failure: None }
    }

    /// The applier points into the topology: at a call of an item, or
    /// behind the last item.
    pub open spec fn well_formed(self, plans: Seq<Seq<CommandView>>) -> bool {
        &&& self.item <= plans.len()
        &&& self.item < plans.len() ==> self.step < plans[self.item as int].len()
        &&& self.item == plans.len() ==> self.step == 0 && !self.awaiting
        &&& self.failure is Some ==> !self.awaiting
    }

    /// What there is to do in this state: after a failure nothing but to
    /// see it; else the call that the applier points at; behind the last
    /// item nothing.
    pub open spec fn current(self, plans: Seq<Seq<CommandView>>) -> StepView {
        match self.failure {
            Some((item, reason)) => StepView::Failed { item, reason },
            None => if self.item < plans.len() && self.step < plans[self.item as int].len() {
                StepView::Run { item: self.item, command: plans[self.item as int][self.step as int] }
            } else {
                StepView::Finished
            },
        }
    }

    /// The state after the current step was handed out: a call counts as
    /// outstanding from then on.
    pub open spec fn handed_out(self, plans: Seq<Seq<CommandView>>) -> ApplierView {
        if self.current(plans) is Run {
            ApplierView { awaiting: true, ..self }
        } else {
            self
        }
    }

    /// The state after `outcome` was reported. A report counts only while
    /// a call is outstanding. A success moves on to the next call of the
    /// item, or past the item when that was its last call; a failure is
    /// recorded with the index of the item in progress.
    pub open spec fn reported(self, plans: Seq<Seq<CommandView>>, outcome: Result<(), Seq<char>>) -> ApplierView {
        if !self.awaiting || self.failure is Some || self.item >= plans.len() {
            self
        } else {
            match outcome {
                Ok(_) => if self.step + 1 < plans[self.item as int].len() {
                    ApplierView { step: self.step + 1, awaiting: false, ..self }
                } else {
                    ApplierView { item: self.item + 1, step: 0, awaiting: false, ..self }
                },
                Err(reason) => ApplierView { awaiting: false, failure: Some((self.item, reason)), ..self },
            }
        }
    }

    /// The state after a report and the handing out of the step that
    /// follows it.
    pub open spec fn advanced(self, plans: Seq<Seq<CommandView>>, outcome: Result<(), Seq<char>>) -> ApplierView {
        self.reported(plans, outcome).handed_out(plans)
    }

    /// The state after a run of reports, each followed by the handing out
    /// of the next step.
    pub open spec fn driven(self, plans: Seq<Seq<CommandView>>, outcomes: Seq<Result<(), Seq<char>>>) -> ApplierView
        decreases outcomes.len(),
    {
        if outcomes.len() == 0 {
            self
        } else {
            self.driven(plans, outcomes.drop_last()).advanced(plans, outcomes.last())
        }
    }
}

/// The calls of a whole topology in the order in which they are made, each
/// as the step that hands it out.
pub open spec fn all_calls(plans: Seq<Seq<CommandView>>) -> Seq<StepView>
    decreases plans.len(),
{
    if plans.len() == 0 {
        Seq::empty()
    } else {
        all_calls(plans.drop_last()) + plans.last().map_values(
            |command: CommandView| StepView::Run { item: (plans.len() - 1) as nat, command },
        )
    }
}

/// The number of calls that the items before the item at index `item` make.
pub open spec fn calls_before(plans: Seq<Seq<CommandView>>, item: nat) -> nat {
    all_calls(plans.take(item as int)).len()
}

/// A run of `count` successes.
pub open spec fn successes(count: nat) -> Seq<Result<(), Seq<char>>> {
    Seq::new(count, |i: int| Ok(()))
}

impl View for TopologyApplier {
    type V = ApplierView;

    closed spec fn view(&self) -> ApplierView {
        ApplierView {
            item: self.item as nat,
            step: self.step as nat,
            awaiting: self.awaiting,
            failure: match self.failure {
                Some((item, reason)) => Some((item as nat, reason@)),
                None => None,
            },
        }
    }
}

impl TopologyApplier {
    /// An applier at the start of a topology.
    pub fn new() -> (applier: Self)
        ensures
            applier@ == ApplierView::start(),
    {
        TopologyApplier { item: 0, step: 0, awaiting: false, failure: None }
    }

    /// The number of items applied so far.
    pub fn applied(&self) -> (count: usize)
        ensures
            count == self@.item,
    {
        self.item
    }

    /// Hands out the current step. A call that it hands out counts as
    /// outstanding until its outcome is reported with [`Self::advance`].
    pub fn begin(&mut self, items: &Vec<TopologyItem>) -> (step: ApplyStep)
        ensures
            step@ == old(self)@.current(plans(items@)),
            final(self)@ == old(self)@.handed_out(plans(items@)),
    {
        match &self.failure {
            Some((item, reason)) => {
                return ApplyStep::Failed { item: *item, reason: reason.clone() };
            },
            None => {},
        }
        if self.item < items.len() {
            match items[self.item].command(self.step) {
                Some(command) => {
                    self.awaiting = true;
                    ApplyStep::Run { item: self.item, command }
                },
                None => ApplyStep::Finished,
            }
        } else {
            ApplyStep::Finished
        }
    }

    /// Takes the outcome of the outstanding call, and hands out the step
    /// that follows. Without an outstanding call the outcome is ignored.
    pub fn advance(&mut self, items: &Vec<TopologyItem>, outcome: Result<(), String>) -> (step: ApplyStep)
        ensures
            step@ == old(self)@.reported(plans(items@), outcome_view(outcome)).current(plans(items@)),
            final(self)@ == old(self)@.advanced(plans(items@), outcome_view(outcome)),
    {
        if self.awaiting && self.failure.is_none() && self.item < items.len() {
            self.awaiting = false;
            match outcome {
                Ok(_) => {
                    if self.step < usize::MAX {
                        match items[self.item].command(self.step + 1) {
                            Some(command) => {
                                self.step = self.step + 1;
                                self.awaiting = true;
                                return ApplyStep::Run { item: self.item, command };
                            },
                            None => {},
                        }
                    } else {
                        proof {
                            items@[self.item as int].plan_is_bounded();
                        }
                    }
                    self.item = self.item + 1;
                    self.step = 0;
                },
                Err(reason) => {
                    self.failure = Some((self.item, reason));
                },
            }
        }
        self.begin(items)
    }
}

/// Every item of a topology makes at least one call.
pub proof fn lemma_plans_are_not_empty(topology: Seq<TopologyItem>)
    ensures
        forall|i: int| 0 <= i < plans(topology).len() ==> (#[trigger] plans(topology)[i]).len() >= 1,
{
    assert forall|i: int| 0 <= i < plans(topology).len() implies (#[trigger] plans(topology)[i]).len()
        >= 1 by {
        topology[i].plan_is_bounded();
    }
}

/// A failure is final: once an item has failed, reports change nothing,
/// and the only step that the applier hands out is the failure itself, with
/// the index of the item and the reason. No call is handed out any more.
pub proof fn lemma_failure_is_final(
    applier: ApplierView,
    plans: Seq<Seq<CommandView>>,
    outcomes: Seq<Result<(), Seq<char>>>,
)
    requires
        applier.failure is Some,
        !applier.awaiting,
    ensures
        applier.driven(plans, outcomes) == applier,
        applier.current(plans) matches StepView::Failed { item, reason } && applier.failure == Some(
            (item, reason),
        ),
    decreases outcomes.len(),
{
    if outcomes.len() > 0 {
        lemma_failure_is_final(applier, plans, outcomes.drop_last());
    }
}

/// The first failure stops the run and names its item: when the outstanding
/// call of the item at index `applier.item` fails, the applier answers with
/// the failure of that item, and goes on answering so whatever is reported
/// afterwards. The items behind it are never attempted.
pub proof fn lemma_first_failure_stops(
    applier: ApplierView,
    plans: Seq<Seq<CommandView>>,
    reason: Seq<char>,
    later: Seq<Result<(), Seq<char>>>,
)
    requires
        applier.awaiting,
        applier.failure is None,
        applier.item < plans.len(),
    ensures
        applier.advanced(plans, Err(reason)).driven(plans, later).current(plans) == (StepView::Failed {
            item: applier.item,
            reason,
        }),
        applier.advanced(plans, Err(reason)).driven(plans, later).item == applier.item,
{
    lemma_failure_is_final(applier.advanced(plans, Err(reason)), plans, later);
}

/// Items are applied in order, call by call: when the outstanding call
/// succeeds, what follows is the next call of the same item, or, behind its
/// last call, the first call of the next item, or the end.
pub proof fn lemma_success_moves_on(applier: ApplierView, plans: Seq<Seq<CommandView>>)
    requires
        applier.well_formed(plans),
        applier.awaiting,
        forall|i: int| 0 <= i < plans.len() ==> (#[trigger] plans[i]).len() >= 1,
    ensures
        applier.advanced(plans, Ok(())).well_formed(plans),
        applier.reported(plans, Ok(())).current(plans) == (if applier.step + 1
            < plans[applier.item as int].len() {
            StepView::Run {
                item: applier.item,
                command: plans[applier.item as int][applier.step as int + 1],
            }
        } else if applier.item + 1 < plans.len() {
            StepView::Run { item: applier.item + 1, command: plans[applier.item as int + 1][0] }
        } else {
            StepView::Finished
        }),
{
}

/// The call at position `step` of the item at index `item` has its place
/// among all calls behind the calls of the items before it.
proof fn lemma_call_at(plans: Seq<Seq<CommandView>>, item: nat, step: nat)
    requires
        item < plans.len(),
        step < plans[item as int].len(),
    ensures
        calls_before(plans, item) + step < all_calls(plans).len(),
        all_calls(plans)[(calls_before(plans, item) + step) as int] == (StepView::Run {
            item,
            command: plans[item as int][step as int],
        }),
    decreases plans.len(),
{
    let front = plans.drop_last();
    if item == plans.len() - 1 {
        assert(plans.take(item as int) =~= front);
    } else {
        assert(front.take(item as int) =~= plans.take(item as int));
        lemma_call_at(front, item, step);
    }
}

/// The calls before the item behind one item are the calls before that
/// item and its own.
proof fn lemma_calls_before_next(plans: Seq<Seq<CommandView>>, item: nat)
    requires
        item < plans.len(),
    ensures
        calls_before(plans, item + 1) == calls_before(plans, item) + plans[item as int].len(),
        item + 1 == plans.len() ==> calls_before(plans, item + 1) == all_calls(plans).len(),
{
    let upto = plans.take(item as int + 1);
    assert(upto.drop_last() =~= plans.take(item as int));
    assert(upto.last() == plans[item as int]);
    if item + 1 == plans.len() {
        assert(upto =~= plans);
    }
}

/// While every call succeeds, the calls are handed out in the order of the
/// topology, each once: after `count` successes the call outstanding is the
/// one at place `count` among all calls, and after as many successes as
/// there are calls the applier is finished, with every item applied.
pub proof fn lemma_calls_come_in_order(plans: Seq<Seq<CommandView>>, count: nat)
    requires
        forall|i: int| 0 <= i < plans.len() ==> (#[trigger] plans[i]).len() >= 1,
        count <= all_calls(plans).len(),
    ensures
        ({
            let applier = ApplierView::start().handed_out(plans).driven(plans, successes(count));
            &&& applier.well_formed(plans)
            &&& applier.failure is None
            &&& calls_before(plans, applier.item) + applier.step == count
            &&& count < all_calls(plans).len() ==> applier.awaiting && applier.current(plans)
                == all_calls(plans)[count as int]
            &&& count == all_calls(plans).len() ==> applier.item == plans.len() && applier.current(plans)
                is Finished
        }),
    decreases count,
{
    let first = ApplierView::start().handed_out(plans);
    assert(plans.take(0) =~= Seq::<Seq<CommandView>>::empty());
    if count == 0 {
        if plans.len() > 0 {
            lemma_call_at(plans, 0, 0);
        }
    } else {
        let before = (count - 1) as nat;
        lemma_calls_come_in_order(plans, before);
        assert(successes(count).drop_last() =~= successes(before));
        let earlier = first.driven(plans, successes(before));
        let applier = earlier.advanced(plans, Ok(()));
        assert(first.driven(plans, successes(count)) == applier);
        lemma_calls_before_next(plans, earlier.item);
        if applier.item < plans.len() {
            lemma_call_at(plans, applier.item, applier.step);
        }
    }
}

} // verus!
