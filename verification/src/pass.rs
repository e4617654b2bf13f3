//! One pass over the device: the commands that compute the products of two
//! vectors, in the order in which they are issued, and the reading of the
//! command buffer's final status.

use crate::buffer::{
    binding_for, gpu_mem, Binding, Source, ELEMENT_BYTES, SLOT_A, SLOT_B, SLOT_LEN, SLOT_OUT,
};
use crate::dispatch::{dispatch_for, Dispatch};
use crate::error::GpuError;
use crate::session::GPU;
use vstd::prelude::*;

verus! {

/// One thing that the driver does on the device.
#[derive(Clone, Copy, Debug, PartialEq, Eq, Structural)]
pub enum Command {
    /// Allocate the buffer of this binding and fill it from its source.
    NewBuffer(Binding),
    /// Bind the session's pipeline state to the encoder.
    SetPipelineState,
    /// Bind the buffer of this binding to its slot, at its offset.
    SetBuffer(Binding),
    /// Pass the number of elements to the kernel in the given slot.
    SetLength { slot: u64, len: u64 },
    /// Launch the kernel over this grid.
    DispatchThreadGroups(Dispatch),
    /// Close the encoding pass.
    EndEncoding,
    /// Submit the command buffer to the queue.
    Commit,
    /// Block until the device has retired the command buffer.
    WaitUntilCompleted,
}

/// State of a command buffer, as the device reports it.
#[derive(Clone, Copy, Debug, PartialEq, Eq, Structural)]
pub enum Status {
    NotEnqueued,
    Enqueued,
    Committed,
    Scheduled,
    Completed,
    Error,
}

/// The run of the kernel over `len` elements: the dispatch, then the end of
/// the encoding, the commit of the command buffer, and the wait for it.
pub open spec fn run_for(len: nat) -> Seq<Command> {
    seq![
        Command::DispatchThreadGroups(dispatch_for(len)),
        Command::EndEncoding,
        Command::Commit,
        Command::WaitUntilCompleted,
    ]
}

/// The pass over two vectors of `len` elements. The three buffers are made
/// first. Then the encoder is given the pipeline state, the buffers in slots
/// 0, 1 and 2, and the length; and then the kernel is run.
pub open spec fn pass_for(len: nat) -> Seq<Command> {
    seq![
        Command::NewBuffer(binding_for(SLOT_A, Source::A, len)),
        Command::NewBuffer(binding_for(SLOT_B, Source::B, len)),
        Command::NewBuffer(binding_for(SLOT_OUT, Source::Zeros, len)),
        Command::SetPipelineState,
        Command::SetBuffer(binding_for(SLOT_A, Source::A, len)),
        Command::SetBuffer(binding_for(SLOT_B, Source::B, len)),
        Command::SetBuffer(binding_for(SLOT_OUT, Source::Zeros, len)),
        Command::SetLength { slot: SLOT_LEN, len: len as u64 },
    ] + run_for(len)
}

/// What a command buffer's status means once it has been waited for:
/// success if it completed, a device fault otherwise.
pub open spec fn completion_of(status: Status) -> Result<(), GpuError> {
    if status == Status::Completed {
        Ok(())
    } else {
        Err(GpuError::DeviceExecutionError)
    }
}

/// What becomes of an iteration whose device sum does or does not agree with
/// the host's.
pub open spec fn validation_of(agrees: bool) -> Result<(), GpuError> {
    if agrees {
        Ok(())
    } else {
        Err(GpuError::ResultMismatch)
    }
}

/// Records the run of the kernel over `len` elements: one dispatch that
/// covers them, closed, committed and waited for.
pub fn gpu_run(len: usize) -> (commands: Vec<Command>)
    ensures
        commands@ == run_for(len as nat),
{
    let mut commands: Vec<Command> = Vec::new();
    commands.push(Command::DispatchThreadGroups(Dispatch::covering(len)));
    commands.push(Command::EndEncoding);
    commands.push(Command::Commit);
    commands.push(Command::WaitUntilCompleted);
    assert(commands@ =~= run_for(len as nat));
    commands
}

/// Records the pass that leaves the products of two vectors, of `a_len` and
/// `b_len` elements, in the output buffer of an open session.
pub fn gpu_dot(gpu: &GPU, a_len: usize, b_len: usize) -> (commands: Vec<Command>)
    requires
        a_len == b_len,
        a_len > 0,
        a_len * ELEMENT_BYTES <= u64::MAX,
    ensures
        commands@ == pass_for(a_len as nat),
{
    let (a, b, out) = gpu_mem(gpu, a_len, b_len);
    let mut commands: Vec<Command> = Vec::new();
    commands.push(Command::NewBuffer(a));
    commands.push(Command::NewBuffer(b));
    commands.push(Command::NewBuffer(out));
    commands.push(Command::SetPipelineState);
    commands.push(Command::SetBuffer(a));
    commands.push(Command::SetBuffer(b));
    commands.push(Command::SetBuffer(out));
    commands.push(Command::SetLength { slot: SLOT_LEN, len: a_len as u64 });
    let mut run = gpu_run(a_len);
    commands.append(&mut run);
    assert(commands@ =~= pass_for(a_len as nat));
    commands
}

/// Judges a pass by the status of its command buffer after the wait.
pub fn completion(status: Status) -> (outcome: Result<(), GpuError>)
    ensures
        outcome == completion_of(status),
{
    match status {
        Status::Completed => Ok(()),
        _ => Err(GpuError::DeviceExecutionError),
    }
}

/// Judges an iteration by whether the sum read back from the device agrees
/// with the host's own.
pub fn validate(agrees: bool) -> (outcome: Result<(), GpuError>)
    ensures
        outcome == validation_of(agrees),
{
    if agrees {
        Ok(())
    } else {
        Err(GpuError::ResultMismatch)
    }
}

} // verus!
