//! One step of putting resource limits into force.

use crate::controller_type::ControllerType;
use vstd::prelude::*;

verus! {

/// What a step is for, which is also where it writes.
#[derive(Clone, Copy, Debug, PartialEq, Eq, Structural)]
pub enum Phase {
    /// Switching a controller on for the node: a write to the subtree-control
    /// file in the directory of the node's parent.
    Enable,
    /// Setting a limit: a write to a control file in the node's own
    /// directory.
    Apply,
}

/// One write on behalf of a controller.
#[derive(Clone, Debug, PartialEq, Eq)]
pub struct Step {
    /// The controller that the write is made for.
    pub controller: ControllerType,
    /// What the write is for, and so in which directory its file lies.
    pub phase: Phase,
    /// The file's name within that directory.
    pub file: String,
    /// The text to write.
    pub value: String,
    /// Whether the whole operation fails if this write does.
    pub fatal: bool,
}

/// The mathematical content of a [`Step`].
pub struct StepView {
    pub controller: ControllerType,
    pub phase: Phase,
    pub file: Seq<char>,
    pub value: Seq<char>,
    pub fatal: bool,
}

impl View for Step {
    type V = StepView;

    open spec fn view(&self) -> StepView {
        StepView {
            controller: self.controller,
            phase: self.phase,
            file: self.file@,
            value: self.value@,
            fatal: self.fatal,
        }
    }
}

impl DeepView for Step {
    type V = StepView;

    open spec fn deep_view(&self) -> StepView {
        self@
    }
}

/// What went wrong with a write.
#[derive(Clone, Debug, PartialEq, Eq)]
pub enum Fault {
    /// The file could not be opened: it is missing, access is denied, or
    /// its controller is not mounted. With it comes the reason.
    Open(String),
    /// The file was opened and the kernel refused the value. With it comes
    /// the reason.
    Write(String),
}

/// The mathematical content of a [`Fault`].
pub enum FaultView {
    Open(Seq<char>),
    Write(Seq<char>),
}

impl FaultView {
    /// The reason that came with the fault.
    pub open spec fn cause(self) -> Seq<char> {
        match self {
            FaultView::Open(cause) => cause,
            FaultView::Write(cause) => cause,
        }
    }
}

impl View for Fault {
    type V = FaultView;

    open spec fn view(&self) -> FaultView {
        match self {
            Fault::Open(cause) => FaultView::Open(cause@),
            Fault::Write(cause) => FaultView::Write(cause@),
        }
    }
}

/// The kinds of error that putting limits into force can end with.
#[derive(Clone, Copy, Debug, PartialEq, Eq, Structural)]
pub enum ErrorKind {
    /// A control file could not be reached.
    FileSystem,
    /// The kernel refused a value.
    KernelRejection,
    /// A controller could not be switched on.
    Enablement,
}

impl ErrorKind {
    /// The kind of error that a fault in a step of the given phase amounts
    /// to: whatever goes wrong while switching a controller on is an
    /// enablement error; while setting a limit, a file that cannot be opened
    /// is a file-system error and a value that is refused a kernel
    /// rejection.
    pub open spec fn of(phase: Phase, fault: FaultView) -> ErrorKind {
        match phase {
            Phase::Enable => ErrorKind::Enablement,
            Phase::Apply => match fault {
                FaultView::Open(_) => ErrorKind::FileSystem,
                FaultView::Write(_) => ErrorKind::KernelRejection,
            },
        }
    }

    /// The kind of error that `fault` amounts to in a step of `phase`.
    pub fn classify(phase: Phase, fault: &Fault) -> (kind: ErrorKind)
        ensures
            kind == ErrorKind::of(phase, fault@),
    {
        match phase {
            Phase::Enable => ErrorKind::Enablement,
            Phase::Apply => match fault {
                Fault::Open(_) => ErrorKind::FileSystem,
                Fault::Write(_) => ErrorKind::KernelRejection,
            },
        }
    }
}

/// A write that failed, and so the operation with it.
#[derive(Clone, Debug, PartialEq, Eq)]
pub struct FailedWrite {
    /// The controller that the write was made for.
    pub controller: ControllerType,
    /// What the write was for, and so in which directory its file lies.
    pub phase: Phase,
    /// The file's name within that directory.
    pub file: String,
    /// The kind of error that the failure amounts to.
    pub kind: ErrorKind,
    /// What went wrong, in the words of whoever made the write.
    pub cause: String,
}

/// The mathematical content of a [`FailedWrite`].
pub struct FailedWriteView {
    pub controller: ControllerType,
    pub phase: Phase,
    pub file: Seq<char>,
    pub kind: ErrorKind,
    pub cause: Seq<char>,
}

impl View for FailedWrite {
    type V = FailedWriteView;

    open spec fn view(&self) -> FailedWriteView {
        FailedWriteView {
            controller: self.controller,
            phase: self.phase,
            file: self.file@,
            kind: self.kind,
            cause: self.cause@,
        }
    }
}

impl DeepView for FailedWrite {
    type V = FailedWriteView;

    open spec fn deep_view(&self) -> FailedWriteView {
        self@
    }
}

} // verus!
