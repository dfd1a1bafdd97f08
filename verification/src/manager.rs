//! The controller manager: which controllers a set of resource limits uses,
//! and the steps, in order, that put the limits into force on one node.

use crate::controller_type::ControllerType;
use crate::resources::{ResourceSpec, ResourceSpecView};
use crate::step::{Phase, Step, StepView};
use crate::write::{Write, WriteView};
use vstd::prelude::*;
use vstd::string::*;

verus! {

/// The file through which a node switches controllers on for its children.
pub const CGROUP_SUBTREE_CONTROL: &'static str = "cgroup.subtree_control";

/// What goes in front of a controller's name to switch it on.
pub const ENABLE_PREFIX: &'static str = "+";

/// What to do about the controllers that the resource limits do not use.
/// Hosts differ in which controllers they offer, so this is for the caller
/// to choose.
#[derive(Clone, Copy, Debug, PartialEq, Eq, Structural)]
pub enum UnusedPolicy {
    /// Leave them alone: only the controllers in use are switched on.
    Skip,
    /// Switch them on as well, and ignore it when that fails.
    Tolerate,
    /// Switch them on as well, and fail when that fails.
    Require,
}

/// The controller manager.
#[derive(Clone, Copy, Debug, PartialEq, Eq)]
pub struct Manager {
    /// What to do about controllers that are not in use.
    pub policy: UnusedPolicy,
}

impl Manager {
    /// Every controller, in the order in which they are always taken.
    pub open spec fn order() -> Seq<ControllerType> {
        seq![
            ControllerType::Cpu,
            ControllerType::CpuSet,
            ControllerType::Io,
            ControllerType::Memory,
            ControllerType::HugeTlb,
            ControllerType::Pids,
        ]
    }

    /// Those of `order` that `resources` uses, in the same order.
    pub open spec fn used_of(order: Seq<ControllerType>, resources: ResourceSpecView) -> Seq<
        ControllerType,
    >
        decreases order.len(),
    {
        if order.len() == 0 {
            Seq::empty()
        } else {
            let front = Self::used_of(order.drop_last(), resources);
            if order.last().used(resources) {
                front.push(order.last())
            } else {
                front
            }
        }
    }

    /// All writes to the node's own files that `resources` asks of the
    /// controllers in `order`, controller by controller.
    pub open spec fn writes_of(order: Seq<ControllerType>, resources: ResourceSpecView) -> Seq<
        WriteView,
    >
        decreases order.len(),
    {
        if order.len() == 0 {
            Seq::empty()
        } else {
            Self::writes_of(order.drop_last(), resources) + order.last().writes(resources)
        }
    }

    /// All writes to the node's own files that `resources` asks for.
    pub open spec fn writes(resources: ResourceSpecView) -> Seq<WriteView> {
        Self::writes_of(Self::order(), resources)
    }

    /// Whether the manager switches `controller` on.
    pub open spec fn enables(
        self,
        controller: ControllerType,
        resources: ResourceSpecView,
    ) -> bool {
        controller.used(resources) || self.policy != UnusedPolicy::Skip
    }

    /// The step that switches `controller` on: its name, with a plus sign in
    /// front, goes to the parent's subtree-control file. Failing to switch on
    /// a controller in use is fatal; for one not in use the policy decides.
    pub open spec fn enable_step(
        self,
        controller: ControllerType,
        resources: ResourceSpecView,
    ) -> StepView {
        StepView {
            controller,
            phase: Phase::Enable,
            file: CGROUP_SUBTREE_CONTROL@,
            value: ENABLE_PREFIX@ + controller.spec_name(),
            fatal: controller.used(resources) || self.policy == UnusedPolicy::Require,
        }
    }

    /// The steps that switch on those of `order` that the manager enables.
    pub open spec fn enable_steps_of(
        self,
        order: Seq<ControllerType>,
        resources: ResourceSpecView,
    ) -> Seq<StepView>
        decreases order.len(),
    {
        if order.len() == 0 {
            Seq::empty()
        } else {
            let front = self.enable_steps_of(order.drop_last(), resources);
            if self.enables(order.last(), resources) {
                front.push(self.enable_step(order.last(), resources))
            } else {
                front
            }
        }
    }

    /// The step that makes one write of `controller` to the node. Its
    /// failure is always fatal.
    pub open spec fn apply_step(controller: ControllerType, write: WriteView) -> StepView {
        StepView {
            controller,
            phase: Phase::Apply,
            file: write.file,
            value: write.value,
            fatal: true,
        }
    }

    /// The steps that make the writes of `controller`.
    pub open spec fn apply_steps(controller: ControllerType, resources: ResourceSpecView) -> Seq<
        StepView,
    > {
        controller.writes(resources).map_values(
            |write: WriteView| Self::apply_step(controller, write),
        )
    }

    /// The steps that make the writes of the controllers in `order`,
    /// controller by controller.
    pub open spec fn apply_steps_of(order: Seq<ControllerType>, resources: ResourceSpecView) -> Seq<
        StepView,
    >
        decreases order.len(),
    {
        if order.len() == 0 {
            Seq::empty()
        } else {
            Self::apply_steps_of(order.drop_last(), resources) + Self::apply_steps(
                order.last(),
                resources,
            )
        }
    }

    /// The steps that put `resources` into force on one node: first the
    /// controllers are switched on in the parent, then each controller makes
    /// its writes to the node, both in the fixed order.
    pub open spec fn steps(self, resources: ResourceSpecView) -> Seq<StepView> {
        self.enable_steps_of(Self::order(), resources) + Self::apply_steps_of(
            Self::order(),
            resources,
        )
    }

    /// The order leaves no controller out and names none twice.
    pub proof fn lemma_order_complete(controller: ControllerType)
        ensures
            Self::order().contains(controller),
            Self::order().no_duplicates(),
    {
        let order = Self::order();
        match controller {
            ControllerType::Cpu => assert(order[0] == controller),
            ControllerType::CpuSet => assert(order[1] == controller),
            ControllerType::Io => assert(order[2] == controller),
            ControllerType::Memory => assert(order[3] == controller),
            ControllerType::HugeTlb => assert(order[4] == controller),
            ControllerType::Pids => assert(order[5] == controller),
        }
    }

    /// A controller added at the end of the order adds its writes at the end.
    pub proof fn lemma_writes_of_push(
        order: Seq<ControllerType>,
        controller: ControllerType,
        resources: ResourceSpecView,
    )
        ensures
            Self::writes_of(order.push(controller), resources) == Self::writes_of(order, resources)
                + controller.writes(resources),
    {
        assert(order.push(controller).drop_last() =~= order);
    }

    /// The writes to the node are those of the six controllers, one
    /// controller after the other in the fixed order.
    pub proof fn lemma_writes_in_order(resources: ResourceSpecView)
        ensures
            Self::writes(resources) == ControllerType::Cpu.writes(resources)
                + ControllerType::CpuSet.writes(resources) + ControllerType::Io.writes(resources)
                + ControllerType::Memory.writes(resources) + ControllerType::HugeTlb.writes(
                resources,
            ) + ControllerType::Pids.writes(resources),
    {
        let none = Seq::<ControllerType>::empty();
        let one = none.push(ControllerType::Cpu);
        let two = one.push(ControllerType::CpuSet);
        let three = two.push(ControllerType::Io);
        let four = three.push(ControllerType::Memory);
        let five = four.push(ControllerType::HugeTlb);
        let six = five.push(ControllerType::Pids);
        Self::lemma_writes_of_push(none, ControllerType::Cpu, resources);
        Self::lemma_writes_of_push(one, ControllerType::CpuSet, resources);
        Self::lemma_writes_of_push(two, ControllerType::Io, resources);
        Self::lemma_writes_of_push(three, ControllerType::Memory, resources);
        Self::lemma_writes_of_push(four, ControllerType::HugeTlb, resources);
        Self::lemma_writes_of_push(five, ControllerType::Pids, resources);
        assert(six =~= Self::order());
        assert(Self::writes_of(none, resources) + ControllerType::Cpu.writes(resources)
            =~= ControllerType::Cpu.writes(resources));
    }

    /// The write that a step makes.
    pub open spec fn step_write(step: StepView) -> WriteView {
        WriteView { file: step.file, value: step.value }
    }

    /// The steps that switch controllers on do nothing else.
    pub proof fn lemma_enable_steps_enable(
        self,
        order: Seq<ControllerType>,
        resources: ResourceSpecView,
    )
        ensures
            forall|i: int|
                0 <= i < self.enable_steps_of(order, resources).len() ==> (
                #[trigger] self.enable_steps_of(order, resources)[i]).phase == Phase::Enable,
        decreases order.len(),
    {
        if order.len() > 0 {
            self.lemma_enable_steps_enable(order.drop_last(), resources);
        }
    }

    /// The steps that apply the limits make exactly the controllers' writes,
    /// in the same order, and each of them is fatal if it fails.
    pub proof fn lemma_apply_steps_write(order: Seq<ControllerType>, resources: ResourceSpecView)
        ensures
            Self::apply_steps_of(order, resources).map_values(
                |step: StepView| Self::step_write(step),
            ) == Self::writes_of(order, resources),
            forall|i: int|
                0 <= i < Self::apply_steps_of(order, resources).len() ==> {
                    let step = #[trigger] Self::apply_steps_of(order, resources)[i];
                    step.phase == Phase::Apply && step.fatal
                },
        decreases order.len(),
    {
        let steps = Self::apply_steps_of(order, resources);
        let writes = steps.map_values(|step: StepView| Self::step_write(step));
        if order.len() > 0 {
            Self::lemma_apply_steps_write(order.drop_last(), resources);
        }
        assert(writes =~= Self::writes_of(order, resources));
    }

    /// A manager with the given policy.
    pub fn new(policy: UnusedPolicy) -> (manager: Manager)
        ensures
            manager.policy == policy,
    {
        Manager { policy }
    }

    /// Every controller, in the order in which they are always taken.
    pub fn controllers() -> (order: Vec<ControllerType>)
        ensures
            order@ == Self::order(),
    {
        let mut order: Vec<ControllerType> = Vec::new();
        order.push(ControllerType::Cpu);
        order.push(ControllerType::CpuSet);
        order.push(ControllerType::Io);
        order.push(ControllerType::Memory);
        order.push(ControllerType::HugeTlb);
        order.push(ControllerType::Pids);
        assert(order@ =~= Self::order());
        order
    }

    /// The controllers that `resources` uses: those with any field present.
    pub fn used_controllers(resources: &ResourceSpec) -> (used: Vec<ControllerType>)
        ensures
            used@ == Self::used_of(Self::order(), resources@),
    {
        let order = Self::controllers();
        let mut used: Vec<ControllerType> = Vec::new();
        let mut i: usize = 0;
        while i < order.len()
            invariant
                i <= order.len(),
                used@ == Self::used_of(order@.take(i as int), resources@),
            decreases order.len() - i,
        {
            assert(order@.take(i + 1).drop_last() =~= order@.take(i as int));
            if order[i].is_used(resources) {
                used.push(order[i]);
            }
            i += 1;
        }
        assert(order@.take(order.len() as int) =~= order@);
        used
    }

    /// The step that switches `controller` on.
    pub fn enable(&self, controller: ControllerType, resources: &ResourceSpec) -> (step: Step)
        ensures
            step@ == self.enable_step(controller, resources@),
    {
        let mut value = String::from_str(ENABLE_PREFIX);
        value.append(controller.name());
        let fatal = controller.is_used(resources) || self.policy == UnusedPolicy::Require;
        Step {
            controller,
            phase: Phase::Enable,
            file: String::from_str(CGROUP_SUBTREE_CONTROL),
            value,
            fatal,
        }
    }

    fn push_apply_steps(steps: &mut Vec<Step>, controller: ControllerType, writes: &Vec<Write>)
        ensures
            final(steps).deep_view() == old(steps).deep_view() + writes.deep_view().map_values(
                |write: WriteView| Self::apply_step(controller, write),
            ),
    {
        let ghost target = writes.deep_view().map_values(
            |write: WriteView| Self::apply_step(controller, write),
        );
        let mut i: usize = 0;
        while i < writes.len()
            invariant
                i <= writes.len(),
                target == writes.deep_view().map_values(
                    |write: WriteView| Self::apply_step(controller, write),
                ),
                steps.deep_view() =~= old(steps).deep_view() + target.take(i as int),
            decreases writes.len() - i,
        {
            let ghost before = steps.deep_view();
            let step = Step {
                controller,
                phase: Phase::Apply,
                file: writes[i].file.clone(),
                value: writes[i].value.clone(),
                fatal: true,
            };
            steps.push(step);
            proof {
                assert(steps.deep_view() =~= before.push(step@));
                assert(step@ == target[i as int]);
            }
            i += 1;
        }
        assert(target.take(writes.len() as int) =~= target);
    }

    /// The steps that make the writes of one controller alone, without
    /// switching it on.
    pub fn controller_plan(controller: ControllerType, resources: &ResourceSpec) -> (steps: Vec<
        Step,
    >)
        ensures
            steps.deep_view() == Self::apply_steps(controller, resources@),
    {
        let mut steps: Vec<Step> = Vec::new();
        let writes = controller.apply(resources);
        Self::push_apply_steps(&mut steps, controller, &writes);
        assert(steps.deep_view() =~= Self::apply_steps(controller, resources@));
        steps
    }

    /// The steps that put `resources` into force on one node.
    pub fn plan(&self, resources: &ResourceSpec) -> (steps: Vec<Step>)
        ensures
            steps.deep_view() == self.steps(resources@),
    {
        let order = Self::controllers();
        let mut steps: Vec<Step> = Vec::new();
        let mut i: usize = 0;
        while i < order.len()
            invariant
                i <= order.len(),
                steps.deep_view() =~= self.enable_steps_of(order@.take(i as int), resources@),
            decreases order.len() - i,
        {
            assert(order@.take(i + 1).drop_last() =~= order@.take(i as int));
            let ghost before = steps.deep_view();
            if order[i].is_used(resources) || self.policy != UnusedPolicy::Skip {
                let step = self.enable(order[i], resources);
                steps.push(step);
                assert(steps.deep_view() =~= before.push(step@));
            }
            i += 1;
        }
        assert(order@.take(order.len() as int) =~= order@);
        let ghost enabling = steps.deep_view();
        let mut i: usize = 0;
        while i < order.len()
            invariant
                i <= order.len(),
                steps.deep_view() =~= enabling + Self::apply_steps_of(
                    order@.take(i as int),
                    resources@,
                ),
            decreases order.len() - i,
        {
            assert(order@.take(i + 1).drop_last() =~= order@.take(i as int));
            let writes = order[i].apply(resources);
            Self::push_apply_steps(&mut steps, order[i], &writes);
            i += 1;
        }
        assert(order@.take(order.len() as int) =~= order@);
        steps
    }
}

} // verus!
