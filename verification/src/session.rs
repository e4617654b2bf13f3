//! Opening a session: the fixed steps from nothing to a device with a queue
//! and a compiled pipeline, and what becomes of the session when the device
//! refuses one of them.

use crate::error::GpuError;
use vstd::prelude::*;

verus! {

/// One step of opening a session. The driver performs it against the device
/// and reports whether the device went along.
#[derive(Clone, Copy, Debug, PartialEq, Eq, Structural)]
pub enum Step {
    /// Select the system's default compute device.
    OpenDevice,
    /// Create the queue that every command buffer is submitted to.
    CreateQueue,
    /// Compile the kernel source into a library.
    CompileKernel,
    /// Look up the kernel's entry point in the library.
    FindFunction,
    /// Link the entry point into a pipeline state.
    BuildPipeline,
}

/// Where a session stands after a step.
#[derive(Clone, Copy, Debug, PartialEq, Eq, Structural)]
pub enum Verdict {
    /// Another step is due.
    Continue(Step),
    /// Device, queue and pipeline state are in hand.
    Ready,
    /// The session cannot be opened.
    Failed(GpuError),
}

/// A session being opened. It knows which step is due and cannot be moved
/// past a step that was not reported.
pub struct Setup {
    step: Step,
}

/// An open session: a device, its queue and the pipeline state of the
/// kernel. Only a setup whose every step succeeded yields one.
pub struct GPU {
    sealed: (),
}

/// What `gpu_setup` hands back: the setup to go on with, the open session,
/// or the failure.
pub enum Progress {
    Next(Setup),
    Ready(GPU),
    Failed(GpuError),
}

/// Where the session stands once `step` was performed and the device
/// `accepted` it or not. Creating the queue reports no failure.
pub open spec fn after(step: Step, accepted: bool) -> Verdict {
    match step {
        Step::OpenDevice => if accepted {
            Verdict::Continue(Step::CreateQueue)
        } else {
            Verdict::Failed(GpuError::DeviceUnavailable)
        },
        Step::CreateQueue => Verdict::Continue(Step::CompileKernel),
        Step::CompileKernel => if accepted {
            Verdict::Continue(Step::FindFunction)
        } else {
            Verdict::Failed(GpuError::KernelCompileError)
        },
        Step::FindFunction => if accepted {
            Verdict::Continue(Step::BuildPipeline)
        } else {
            Verdict::Failed(GpuError::KernelCompileError)
        },
        Step::BuildPipeline => if accepted {
            Verdict::Ready
        } else {
            Verdict::Failed(GpuError::KernelCompileError)
        },
    }
}

/// Where a session that is due for `step` stands after the device answered
/// the steps from there on with `answers`, in order. Answers past the end of
/// the setup are not looked at.
pub open spec fn run_from(step: Step, answers: Seq<bool>) -> Verdict
    decreases answers.len(),
{
    if answers.len() == 0 {
        Verdict::Continue(step)
    } else {
        match after(step, answers[0]) {
            Verdict::Continue(next) => run_from(next, answers.skip(1)),
            end => end,
        }
    }
}

/// Where a fresh session stands after `answers`.
pub open spec fn run(answers: Seq<bool>) -> Verdict {
    run_from(Step::OpenDevice, answers)
}

impl Setup {
    /// The step that is due.
    pub closed spec fn pending(&self) -> Step {
        self.step
    }

    /// A session of which nothing has been opened yet.
    pub fn new() -> (setup: Setup)
        ensures
            setup.pending() == Step::OpenDevice,
    {
        Setup { step: Step::OpenDevice }
    }

    /// The step to perform next.
    pub fn step(&self) -> (step: Step)
        ensures
            step == self.pending(),
    {
        self.step
    }
}

impl Progress {
    /// The progress without the values it carries.
    pub open spec fn verdict(&self) -> Verdict {
        match self {
            Progress::Next(setup) => Verdict::Continue(setup.pending()),
            Progress::Ready(_) => Verdict::Ready,
            Progress::Failed(error) => Verdict::Failed(*error),
        }
    }
}

/// Whether `step` is one of the two that turn the kernel source into a
/// function.
pub open spec fn makes_function(step: Step) -> bool {
    step == Step::CompileKernel || step == Step::FindFunction
}

/// Whether `step` is one of the three that turn the kernel source into a
/// pipeline state.
pub open spec fn makes_pipeline_state(step: Step) -> bool {
    makes_function(step) || step == Step::BuildPipeline
}

/// Judges the device's answer to a step on the way to the kernel function:
/// the compilation of the source, or the lookup of the entry point.
pub fn gpu_fn(step: Step, accepted: bool) -> (verdict: Verdict)
    requires
        makes_function(step),
    ensures
        verdict == after(step, accepted),
{
    if !accepted {
        Verdict::Failed(GpuError::KernelCompileError)
    } else {
        match step {
            Step::CompileKernel => Verdict::Continue(Step::FindFunction),
            _ => Verdict::Continue(Step::BuildPipeline),
        }
    }
}

/// Judges the device's answer to a step on the way to the pipeline state:
/// one of those that make the kernel function, or the linking of it.
pub fn gpu_state(step: Step, accepted: bool) -> (verdict: Verdict)
    requires
        makes_pipeline_state(step),
    ensures
        verdict == after(step, accepted),
{
    match step {
        Step::BuildPipeline => if accepted {
            Verdict::Ready
        } else {
            Verdict::Failed(GpuError::KernelCompileError)
        },
        _ => gpu_fn(step, accepted),
    }
}

/// Takes the device's answer to the pending step of `setup` and moves on: to
/// the next step, to the open session after the last, or to the failure that
/// a refusal amounts to.
pub fn gpu_setup(setup: Setup, accepted: bool) -> (progress: Progress)
    ensures
        progress.verdict() == after(setup.pending(), accepted),
{
    let verdict = match setup.step {
        Step::OpenDevice => if accepted {
            Verdict::Continue(Step::CreateQueue)
        } else {
            Verdict::Failed(GpuError::DeviceUnavailable)
        },
        Step::CreateQueue => Verdict::Continue(Step::CompileKernel),
        step => gpu_state(step, accepted),
    };
    match verdict {
        Verdict::Continue(step) => Progress::Next(Setup { step }),
        Verdict::Ready => Progress::Ready(GPU { sealed: () }),
        Verdict::Failed(error) => Progress::Failed(error),
    }
}

/// Name of the kernel's entry point, as host and kernel source agree on it.
pub fn entry_point() -> (name: &'static str)
    ensures
        name@ == "dot_product"@,
{
    "dot_product"
}

/// Without a device the session fails at once, as `DeviceUnavailable`,
/// whatever the answers to later steps would have been.
pub proof fn lemma_no_device_no_session(answers: Seq<bool>)
    requires
        answers.len() > 0,
        !answers[0],
    ensures
        run(answers) == Verdict::Failed(GpuError::DeviceUnavailable),
{
}

/// A session is ready exactly when the device was found and the kernel
/// compiled, had its entry point and linked.
pub proof fn lemma_ready_iff_every_step_accepted(answers: Seq<bool>)
    ensures
        run(answers) == Verdict::Ready <==> answers.len() >= 5 && answers[0] && answers[2]
            && answers[3] && answers[4],
{
    reveal_with_fuel(run_from, 6);
}

/// A setup fails as `DeviceUnavailable` only at its first step, and as
/// nothing but that or `KernelCompileError`.
pub proof fn lemma_failure_kinds(answers: Seq<bool>)
    ensures
        run(answers) == Verdict::Failed(GpuError::DeviceUnavailable) <==> answers.len() > 0
            && !answers[0],
        run(answers) is Failed ==> run(answers) == Verdict::Failed(GpuError::DeviceUnavailable)
            || run(answers) == Verdict::Failed(GpuError::KernelCompileError),
{
    reveal_with_fuel(run_from, 6);
}

} // verus!
