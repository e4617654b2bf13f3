//! Host-side planning for a dot product computed on a Metal compute device.
//!
//! The device multiplies two vectors of 32-bit floats element by element; the
//! host sums the products. This crate decides everything about that exchange
//! that is a matter of integers and order: how many thread groups cover a
//! vector, how large each buffer is and which argument slot it is bound to,
//! which commands are issued and in what sequence, how the session is opened
//! step by step, and which failure each refused step amounts to. Every
//! function is verified against a contract over plain mathematical values.
//!
//! The crate touches no device itself. A driver performs the commands it
//! plans and reports back what the device answered.

pub mod buffer;
pub mod dispatch;
pub mod error;
pub mod pass;
pub mod session;

pub use buffer::{
    gpu_buf, gpu_mem, readable, Binding, BufferDesc, Source, StorageMode, ELEMENT_BYTES, SLOT_A,
    SLOT_B, SLOT_LEN, SLOT_OUT,
};
pub use dispatch::{group_count, padding, size_1d, Dispatch, Size, THREADS_PER_GROUP};
pub use error::GpuError;
pub use pass::{completion, gpu_dot, gpu_run, validate, Command, Status};
pub use session::{
    entry_point, gpu_fn, gpu_setup, gpu_state, Progress, Setup, Step, Verdict, GPU,
};
