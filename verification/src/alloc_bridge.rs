use vstd::prelude::*;

verus! {

/// Semantics of the allocator bridge: the allocate / release / reallocate
/// contract the native library's memory callbacks must satisfy, modeled
/// over owned byte blocks. The process-wide callback table that forwards
/// these operations to the host allocator across the native boundary lives
/// outside this crate and must behave as stated here.
///
/// Returns a fresh block of exactly the requested size, every byte zero.
pub fn allocate(requested_size: usize) -> (block: Vec<u8>)
    ensures
        block@.len() == requested_size,
        forall|i: int| 0 <= i < block@.len() ==> block@[i] == 0,
{
    let mut block: Vec<u8> = Vec::new();
    let mut i: usize = 0;
    while i < requested_size
        invariant
            i <= requested_size,
            block@.len() == i,
            forall|j: int| 0 <= j < block@.len() ==> block@[j] == 0,
        decreases requested_size - i,
    {
        block.push(0);
        i = i + 1;
    }
    block
}

/// Returns a block to the allocator: the block is consumed and its storage
/// given up. Releasing an empty block is a no-op, matching the host
/// allocator's convention for a null block.
pub fn release(block: Vec<u8>) {
    let _consumed = block;
}

/// Resizes a block, preserving its contents up to the shorter of the old
/// and the new size; bytes past the old length are zero, as in a fresh
/// allocation. The old size travels with the block itself, so the old-size
/// argument the native callback convention carries is not needed for
/// correctness.
pub fn reallocate(block: Vec<u8>, new_size: usize) -> (r: Vec<u8>)
    ensures
        r@.len() == new_size,
        forall|i: int| 0 <= i < block@.len() && i < new_size ==> r@[i] == block@[i],
        forall|i: int| block@.len() <= i < new_size ==> r@[i] == 0,
{
    let mut r: Vec<u8> = Vec::new();
    let mut i: usize = 0;
    while i < new_size
        invariant
            i <= new_size,
            r@.len() == i,
            forall|j: int| 0 <= j < i && j < block@.len() ==> r@[j] == block@[j],
            forall|j: int| block@.len() <= j < i ==> r@[j] == 0,
        decreases new_size - i,
    {
        if i < block.len() {
            let byte = block[i];
            r.push(byte);
        } else {
            r.push(0);
        }
        i = i + 1;
    }
    r
}

} // verus!
