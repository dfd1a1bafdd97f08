//! The two directories that a plan writes to, and what their files hold
//! once every step of the plan has been made.

use crate::field::Field;
use crate::manager::Manager;
use crate::resources::ResourceSpecView;
use crate::step::{Phase, StepView};
use crate::write::{lemma_written_idempotent, written, Files, WriteView};
use vstd::prelude::*;

verus! {

/// The control files that putting limits into force can reach.
pub struct Host {
    /// The files in the directory of the node's parent.
    pub parent: Files,
    /// The files in the node's own directory.
    pub node: Files,
}

/// The writes that the steps of one phase make, in the steps' order.
pub open spec fn writes_in(steps: Seq<StepView>, phase: Phase) -> Seq<WriteView>
    decreases steps.len(),
{
    if steps.len() == 0 {
        Seq::empty()
    } else {
        let front = writes_in(steps.drop_last(), phase);
        if steps.last().phase == phase {
            front.push(Manager::step_write(steps.last()))
        } else {
            front
        }
    }
}

/// The host after every one of `steps` was made, in order: the steps that
/// switch controllers on write to the parent, the others to the node.
pub open spec fn carried_out(host: Host, steps: Seq<StepView>) -> Host {
    Host {
        parent: written(host.parent, writes_in(steps, Phase::Enable)),
        node: written(host.node, writes_in(steps, Phase::Apply)),
    }
}

/// The writes of two runs of steps, one after the other, are the writes of
/// the first followed by those of the second.
pub proof fn lemma_writes_in_add(first: Seq<StepView>, second: Seq<StepView>, phase: Phase)
    ensures
        writes_in(first + second, phase) == writes_in(first, phase) + writes_in(second, phase),
    decreases second.len(),
{
    if second.len() == 0 {
        assert(first + second =~= first);
        assert(writes_in(first, phase) + writes_in(second, phase) =~= writes_in(first, phase));
    } else {
        lemma_writes_in_add(first, second.drop_last(), phase);
        assert((first + second).drop_last() =~= first + second.drop_last());
        assert(writes_in(first + second, phase) =~= writes_in(first, phase) + writes_in(
            second,
            phase,
        ));
    }
}

/// Steps that are all of one phase make all their writes in that phase and
/// none in the other.
pub proof fn lemma_writes_in_one_phase(steps: Seq<StepView>, phase: Phase, other: Phase)
    requires
        forall|i: int| 0 <= i < steps.len() ==> (#[trigger] steps[i]).phase == phase,
        other != phase,
    ensures
        writes_in(steps, phase) == steps.map_values(|step: StepView| Manager::step_write(step)),
        writes_in(steps, other).len() == 0,
    decreases steps.len(),
{
    if steps.len() > 0 {
        lemma_writes_in_one_phase(steps.drop_last(), phase, other);
        assert(steps[steps.len() - 1].phase == phase);
    }
    assert(writes_in(steps, phase) =~= steps.map_values(
        |step: StepView| Manager::step_write(step),
    ));
}

impl Manager {
    /// The plan's writes to the node are the writes of the controllers: the
    /// manager adds none and leaves none out.
    pub proof fn lemma_plan_writes(self, resources: ResourceSpecView)
        ensures
            writes_in(self.steps(resources), Phase::Apply) == Self::writes(resources),
    {
        let enabling = self.enable_steps_of(Self::order(), resources);
        let applying = Self::apply_steps_of(Self::order(), resources);
        self.lemma_enable_steps_enable(Self::order(), resources);
        Self::lemma_apply_steps_write(Self::order(), resources);
        lemma_writes_in_one_phase(enabling, Phase::Enable, Phase::Apply);
        lemma_writes_in_one_phase(applying, Phase::Apply, Phase::Enable);
        lemma_writes_in_add(enabling, applying, Phase::Apply);
        assert(writes_in(enabling, Phase::Apply) + writes_in(applying, Phase::Apply)
            =~= writes_in(applying, Phase::Apply));
    }

    /// Carrying out the plan a second time leaves every file, in the parent
    /// and in the node, with the content it had after the first time.
    pub proof fn lemma_plan_idempotent(self, resources: ResourceSpecView, host: Host)
        ensures
            carried_out(carried_out(host, self.steps(resources)), self.steps(resources))
                == carried_out(host, self.steps(resources)),
    {
        let steps = self.steps(resources);
        lemma_written_idempotent(host.parent, writes_in(steps, Phase::Enable));
        lemma_written_idempotent(host.node, writes_in(steps, Phase::Apply));
    }

    /// Where a single field is present, carrying out the plan changes one
    /// file of the node and no other: the field's file, which then holds
    /// the field's encoded value.
    pub proof fn lemma_plan_single_field(
        self,
        resources: ResourceSpecView,
        field: Field,
        host: Host,
    )
        requires
            field.present(resources),
            forall|other: Field| #[trigger] other.present(resources) ==> other == field,
        ensures
            carried_out(host, self.steps(resources)).node == host.node.insert(
                field.write(resources).file,
                field.write(resources).value,
            ),
    {
        self.lemma_plan_writes(resources);
        field.lemma_single_field(resources, host.node);
    }

    /// A file of the node that is the file of no field that is present is
    /// left by the plan as it was: there if it was there, with the content
    /// it had.
    pub proof fn lemma_plan_leaves_absent(
        self,
        resources: ResourceSpecView,
        host: Host,
        file: Seq<char>,
    )
        requires
            forall|field: Field| #[trigger]
                field.present(resources) ==> field.write(resources).file != file,
        ensures
            carried_out(host, self.steps(resources)).node.dom().contains(file)
                == host.node.dom().contains(file),
            host.node.dom().contains(file) ==> carried_out(host, self.steps(resources)).node[file]
                == host.node[file],
    {
        self.lemma_plan_writes(resources);
        Field::lemma_absent_fields_leave_file(resources, host.node, file);
    }
}

} // verus!
