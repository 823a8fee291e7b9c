use freetype::alloc_bridge::allocate;
use freetype::alloc_bridge::reallocate;
use freetype::alloc_bridge::release;

#[test]
fn allocate_returns_zeroed_block_of_requested_size() {
    let block = allocate(16);
    assert_eq!(block.len(), 16);
    assert!(block.iter().all(|&b| b == 0));
}

#[test]
fn allocate_zero_bytes_gives_empty_block() {
    let block = allocate(0);
    assert_eq!(block.len(), 0);
    release(block);
}

#[test]
fn allocate_then_release_is_safe_to_repeat() {
    for _ in 0..1000 {
        let block = allocate(64);
        assert_eq!(block.len(), 64);
        release(block);
    }
}

#[test]
fn reallocate_to_larger_size_preserves_old_contents() {
    let mut block = allocate(3);
    block[0] = 10;
    block[1] = 20;
    block[2] = 30;
    let grown = reallocate(block, 5);
    assert_eq!(grown, vec![10, 20, 30, 0, 0]);
}

#[test]
fn reallocate_to_smaller_size_keeps_the_prefix() {
    let mut block = allocate(4);
    block[0] = 1;
    block[1] = 2;
    block[2] = 3;
    block[3] = 4;
    let shrunk = reallocate(block, 2);
    assert_eq!(shrunk, vec![1, 2]);
}

#[test]
fn reallocate_empty_block_behaves_like_allocate() {
    let block = reallocate(Vec::new(), 8);
    assert_eq!(block, vec![0; 8]);
}
