//! The closed set of resource controllers.

use vstd::prelude::*;
use vstd::string::*;

verus! {

/// A resource controller of the unified hierarchy.
#[derive(Clone, Copy, Debug, PartialEq, Eq, Structural)]
pub enum ControllerType {
    Cpu,
    CpuSet,
    Io,
    Memory,
    HugeTlb,
    Pids,
}

impl ControllerType {
    /// The name under which the kernel knows the controller.
    pub open spec fn spec_name(self) -> Seq<char> {
        match self {
            ControllerType::Cpu => "cpu"@,
            ControllerType::CpuSet => "cpuset"@,
            ControllerType::Io => "io"@,
            ControllerType::Memory => "memory"@,
            ControllerType::HugeTlb => "hugetlb"@,
            ControllerType::Pids => "pids"@,
        }
    }

    /// The name under which the kernel knows the controller.
    pub fn name(&self) -> (name: &'static str)
        ensures
            name@ == self.spec_name(),
    {
        match self {
            ControllerType::Cpu => "cpu",
            ControllerType::CpuSet => "cpuset",
            ControllerType::Io => "io",
            ControllerType::Memory => "memory",
            ControllerType::HugeTlb => "hugetlb",
            ControllerType::Pids => "pids",
        }
    }

    /// The controller's name as an owned string.
    pub fn to_string(&self) -> (name: String)
        ensures
            name@ == self.spec_name(),
    {
        String::from_str(self.name())
    }
}

} // verus!
