use dynamorio_rs::error::{Error, ReleaseError};
use dynamorio_rs::exec_memory::ExecAllocator;
use dynamorio_rs::sync::Mutex;

#[test]
fn allocate_then_release_once() {
    let mut alloc = ExecAllocator::new();
    let block = alloc.allocate(29).unwrap();
    assert_eq!(block.size, 29);
    assert_eq!(alloc.live_count(), 1);
    assert!(alloc.is_allocated(block.addr, block.size));
    assert_eq!(alloc.release(block.addr, block.size), Ok(()));
    assert_eq!(alloc.live_count(), 0);
    assert!(!alloc.is_allocated(block.addr, block.size));
}

#[test]
fn double_release_is_refused() {
    let mut alloc = ExecAllocator::new();
    let block = alloc.allocate(41).unwrap();
    assert_eq!(alloc.release(block.addr, block.size), Ok(()));
    // The second release of the same block must not succeed.
    assert_eq!(
        alloc.release(block.addr, block.size),
        Err(ReleaseError::UnknownBlock)
    );
    assert_eq!(alloc.live_count(), 0);
}

#[test]
fn release_with_wrong_size_is_refused() {
    let mut alloc = ExecAllocator::new();
    let block = alloc.allocate(29).unwrap();
    assert_eq!(
        alloc.release(block.addr, 30),
        Err(ReleaseError::SizeMismatch)
    );
    // The block is still live and can be released with the right size.
    assert_eq!(alloc.live_count(), 1);
    assert_eq!(alloc.release(block.addr, block.size), Ok(()));
}

#[test]
fn release_of_unknown_address_is_refused() {
    let mut alloc = ExecAllocator::new();
    assert_eq!(alloc.release(0x1234, 16), Err(ReleaseError::UnknownBlock));
}

#[test]
fn distinct_blocks_get_distinct_addresses() {
    let mut alloc = ExecAllocator::new();
    let a = alloc.allocate(16).unwrap();
    let b = alloc.allocate(16).unwrap();
    assert_ne!(a.addr, b.addr);
    assert_eq!(alloc.live_count(), 2);
}

#[test]
fn try_lock_on_locked_handler_would_block() {
    let mut handler: Mutex<u32> = Mutex::new(7);
    handler.lock();
    // Non-blocking by construction: the call returns at once with the
    // distinct would-block outcome and changes nothing.
    assert_eq!(handler.try_lock(), Err(Error::WouldBlock));
    assert_eq!(handler.value, 7);
    handler.unlock();
    assert_eq!(handler.try_lock(), Ok(()));
    handler.unlock();
}

#[test]
fn lock_guards_mutation() {
    let mut handler: Mutex<u32> = Mutex::new(0);
    handler.lock();
    handler.value += 1;
    handler.unlock();
    assert_eq!(handler.value, 1);
    assert!(!handler.locked);
}

#[test]
fn would_block_description() {
    assert_eq!(Error::WouldBlock.describe(), "lock would block");
}
