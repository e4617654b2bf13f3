//! Layout of the device buffers of one pass: how many bytes each one takes,
//! how it is stored, what fills it, and which argument slot of the kernel it
//! is bound to.

use crate::dispatch::in_bounds;
use crate::session::GPU;
use vstd::prelude::*;

verus! {

/// Bytes that one element, a 32-bit float, takes in a buffer.
pub const ELEMENT_BYTES: u64 = 4;

/// Argument slot of the first input vector.
pub const SLOT_A: u64 = 0;

/// Argument slot of the second input vector.
pub const SLOT_B: u64 = 1;

/// Argument slot of the vector of products.
pub const SLOT_OUT: u64 = 2;

/// Argument slot through which the kernel learns how many elements there
/// are, so that an invocation beyond the last one touches nothing.
pub const SLOT_LEN: u64 = 3;

/// Where the memory of a buffer lives and who can see it.
#[derive(Clone, Copy, Debug, PartialEq, Eq, Structural)]
pub enum StorageMode {
    /// In system memory, visible to host and device alike.
    Shared,
    /// Mirrored between host and device; each side must synchronize.
    Managed,
    /// In device memory, hidden from the host.
    Private,
    /// In tile memory, for the length of one pass only.
    Memoryless,
}

/// What a buffer holds when the pass begins.
#[derive(Clone, Copy, Debug, PartialEq, Eq, Structural)]
pub enum Source {
    /// A copy of the first input vector.
    A,
    /// A copy of the second input vector.
    B,
    /// Zeros, one for each element.
    Zeros,
}

/// Size and storage of one device buffer.
#[derive(Clone, Copy, Debug, PartialEq, Eq, Structural)]
pub struct BufferDesc {
    /// Length in bytes.
    pub length: u64,
    pub storage: StorageMode,
}

/// One buffer of a pass together with the kernel argument it stands for.
#[derive(Clone, Copy, Debug, PartialEq, Eq, Structural)]
pub struct Binding {
    /// Index in the kernel's buffer argument table.
    pub slot: u64,
    /// Offset in bytes at which the kernel starts to read the buffer.
    pub offset: u64,
    pub source: Source,
    pub buffer: BufferDesc,
}

/// The buffer for a vector of `len` elements: four bytes each, in shared
/// storage.
pub open spec fn buffer_for(len: nat) -> BufferDesc {
    BufferDesc { length: (len * ELEMENT_BYTES) as u64, storage: StorageMode::Shared }
}

/// The binding of the buffer filled from `source` to `slot`, for vectors of
/// `len` elements.
pub open spec fn binding_for(slot: u64, source: Source, len: nat) -> Binding {
    Binding { slot, offset: 0, source, buffer: buffer_for(len) }
}

/// Whether the host may read `len` elements straight out of `buffer`: the
/// storage is shared with the host and the elements lie within the buffer.
pub open spec fn readable_spec(buffer: BufferDesc, len: nat) -> bool {
    buffer.storage == StorageMode::Shared && len * ELEMENT_BYTES <= buffer.length
}

/// Describes the device buffer that mirrors a host vector of `len` elements.
pub fn gpu_buf(_gpu: &GPU, len: usize) -> (buffer: BufferDesc)
    requires
        len * ELEMENT_BYTES <= u64::MAX,
    ensures
        buffer == buffer_for(len as nat),
        buffer.length == len * ELEMENT_BYTES,
{
    BufferDesc { length: (len as u64) * ELEMENT_BYTES, storage: StorageMode::Shared }
}

/// Lays out the three buffers of a pass over vectors of `a_len` and `b_len`
/// elements: the inputs in slots 0 and 1, each a copy of its vector, and in
/// slot 2 the output, zeroed, all of one size.
pub fn gpu_mem(gpu: &GPU, a_len: usize, b_len: usize) -> (bindings: (Binding, Binding, Binding))
    requires
        a_len == b_len,
        a_len > 0,
        a_len * ELEMENT_BYTES <= u64::MAX,
    ensures
        bindings.0 == binding_for(SLOT_A, Source::A, a_len as nat),
        bindings.1 == binding_for(SLOT_B, Source::B, a_len as nat),
        bindings.2 == binding_for(SLOT_OUT, Source::Zeros, a_len as nat),
{
    let out = Binding { slot: SLOT_OUT, offset: 0, source: Source::Zeros, buffer: gpu_buf(gpu, a_len) };
    let a = Binding { slot: SLOT_A, offset: 0, source: Source::A, buffer: gpu_buf(gpu, a_len) };
    let b = Binding { slot: SLOT_B, offset: 0, source: Source::B, buffer: gpu_buf(gpu, b_len) };
    (a, b, out)
}

/// Tells whether the host may read `len` elements straight out of `buffer`.
pub fn readable(buffer: &BufferDesc, len: usize) -> (ok: bool)
    ensures
        ok == readable_spec(*buffer, len as nat),
{
    match buffer.storage {
        StorageMode::Shared => (len as u64) <= buffer.length / ELEMENT_BYTES,
        _ => false,
    }
}

/// Every buffer that `gpu_buf` describes can be read back in full by the
/// host.
pub proof fn lemma_planned_buffer_is_readable(len: nat)
    requires
        len * ELEMENT_BYTES <= u64::MAX,
    ensures
        readable_spec(buffer_for(len), len),
{
}

/// The kernel's test is the bound of the buffers: an invocation that passes
/// it finds its element inside a buffer for `len` elements, and one that
/// fails it would reach past the end.
pub proof fn lemma_guard_is_buffer_bound(index: nat, len: nat)
    requires
        len * ELEMENT_BYTES <= u64::MAX,
    ensures
        in_bounds(index, len) <==> (index + 1) * ELEMENT_BYTES <= buffer_for(len).length,
{
}

} // verus!
