use admission_core::block_space::{AllocFailure, BlockSpaceAllocator, TxBin};

/// A successful dump raises occupancy by exactly the dumped length; a
/// refused dump leaves the bin untouched; shrinking pins capacity to the
/// occupancy.
#[test]
fn test_bin_dump_and_shrink() {
    let mut bin = TxBin::init(10);
    assert_eq!(bin.allotted, 10);
    assert_eq!(bin.occupied, 0);
    bin.try_dump(&[1u8, 2, 3]).expect("fits");
    assert_eq!(bin.occupied, 3);
    let err = bin.try_dump(&[0u8; 8]).expect_err("does not fit");
    assert!(matches!(err, AllocFailure::ExceedsBin));
    assert_eq!(bin.occupied, 3);
    assert_eq!(bin.allotted, 10);
    bin.shrink_to_fit();
    assert_eq!(bin.allotted, 3);
    assert_eq!(bin.occupied, 3);
}

/// An exactly full bin still accepts an empty dump and refuses one byte.
#[test]
fn test_bin_boundary() {
    let mut bin = TxBin::init(4);
    bin.try_dump(&[9u8; 4]).expect("fits exactly");
    bin.try_dump(&[]).expect("empty always fits");
    assert!(bin.try_dump(&[1u8]).is_err());
    assert_eq!(bin.occupied, 4);
}

/// Driving the allocator through all three phases: each transition hands
/// the unused remainder forward, and the three occupancies never together
/// exceed the block's budget.
#[test]
fn test_allocator_three_phases() {
    let mut alloc = BlockSpaceAllocator::new(100);
    assert_eq!(alloc.decrypted_txs.allotted, 100);
    alloc.try_alloc(&[0u8; 30]).expect("fits");
    assert_eq!(alloc.decrypted_txs.occupied, 30);

    let mut alloc = alloc.next_state();
    assert_eq!(alloc.decrypted_txs.allotted, 30);
    assert_eq!(alloc.protocol_txs.allotted, 70);
    alloc.try_alloc(&[0u8; 50]).expect("fits");
    let err = alloc.try_alloc(&[0u8; 30]).expect_err("only 20 left");
    assert!(matches!(err, AllocFailure::ExceedsBin));
    assert_eq!(alloc.protocol_txs.occupied, 50);

    let mut alloc = alloc.next_state();
    assert_eq!(alloc.protocol_txs.allotted, 50);
    assert_eq!(alloc.encrypted_txs.allotted, 20);
    alloc.try_alloc(&[0u8; 20]).expect("fits exactly");
    assert!(alloc.try_alloc(&[0u8; 1]).is_err());

    let total = alloc.decrypted_txs.occupied + alloc.protocol_txs.occupied
        + alloc.encrypted_txs.occupied;
    assert!(total <= alloc.block);
    assert_eq!(total, 100);
}

/// A zero-budget block admits nothing with a size.
#[test]
fn test_allocator_zero_budget() {
    let mut alloc = BlockSpaceAllocator::new(0);
    assert!(alloc.try_alloc(b"x").is_err());
    alloc.try_alloc(&[]).expect("the empty transaction occupies nothing");
    let alloc = alloc.next_state();
    assert_eq!(alloc.protocol_txs.allotted, 0);
    let alloc = alloc.next_state();
    assert_eq!(alloc.encrypted_txs.allotted, 0);
}

/// An untouched phase hands its whole capacity forward.
#[test]
fn test_allocator_unused_phase_forwards_budget() {
    let alloc = BlockSpaceAllocator::new(55);
    let alloc = alloc.next_state();
    assert_eq!(alloc.decrypted_txs.allotted, 0);
    assert_eq!(alloc.protocol_txs.allotted, 55);
    let alloc = alloc.next_state();
    assert_eq!(alloc.encrypted_txs.allotted, 55);
}
