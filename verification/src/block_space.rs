//! Block space accounting: a byte-budget bin per transaction category, and
//! the phase-ordered allocator that carves a block's total byte budget into
//! those bins, handing each phase's unused space forward to the next.

use vstd::prelude::*;

verus! {

/// Why an allocation attempt was refused: the candidate transaction's bytes
/// do not fit in the free space of the current phase's bin. Such a failure
/// is per-candidate and never fatal to block construction.
#[derive(Clone, Copy, Debug, PartialEq, Eq, Structural)]
pub enum AllocFailure {
    ExceedsBin,
}

/// A fixed-capacity byte counter: one transaction category's share of a
/// block. `occupied` never exceeds `allotted`, and a refused dump leaves
/// the bin untouched.
#[derive(Clone, Copy, Debug)]
pub struct TxBin {
    /// Bytes this bin may hold in total.
    pub allotted: u64,
    /// Bytes dumped into the bin so far.
    pub occupied: u64,
}

impl TxBin {
    /// A bin is well formed when it is not over-filled.
    pub open spec fn wf(self) -> bool {
        self.occupied <= self.allotted
    }

    /// A fresh bin of the given capacity, with no prior occupancy.
    pub fn init(capacity: u64) -> (bin: TxBin)
        ensures
            bin.allotted == capacity,
            bin.occupied == 0,
            bin.wf(),
    {
        TxBin { allotted: capacity, occupied: 0 }
    }

    /// Dump a transaction's bytes into the bin. Succeeds, raising `occupied`
    /// by exactly `tx.len()`, iff the bytes fit in the remaining free space;
    /// otherwise fails and leaves the bin exactly as it was.
    pub fn try_dump(&mut self, tx: &[u8]) -> (r: Result<(), AllocFailure>)
        requires
            old(self).wf(),
        ensures
            final(self).allotted == old(self).allotted,
            old(self).occupied + tx@.len() <= old(self).allotted ==> {
                &&& r is Ok
                &&& final(self).occupied == old(self).occupied + tx@.len()
            },
            old(self).occupied + tx@.len() > old(self).allotted ==> {
                &&& r == Err::<(), AllocFailure>(AllocFailure::ExceedsBin)
                &&& *final(self) == *old(self)
            },
            final(self).wf(),
    {
        let len: u64 = tx.len() as u64;
        if len <= self.allotted - self.occupied {
            self.occupied = self.occupied + len;
            Ok(())
        } else {
            Err(AllocFailure::ExceedsBin)
        }
    }

    /// Give up the bin's unused headroom: capacity becomes exactly the
    /// occupancy at the instant of the call. Capacity never grows here.
    pub fn shrink_to_fit(&mut self)
        ensures
            final(self).allotted == old(self).occupied,
            final(self).occupied == old(self).occupied,
            old(self).wf() ==> final(self).allotted <= old(self).allotted,
            final(self).wf(),
    {
        self.allotted = self.occupied;
    }
}

/// Phase marker: the block is taking transactions decrypted from the
/// previous epoch's wrapper payloads.
pub struct BuildingDecryptedTxBatch;

/// Phase marker: the block is taking protocol transactions.
pub struct BuildingProtocolTxBatch;

/// Phase marker: the block is taking newly submitted (still encrypted)
/// wrapper transactions.
pub struct BuildingEncryptedTxBatch;

/// The block space allocator: one bin per transaction category, driven
/// forward through the three construction phases. The phase is part of the
/// type, so only the operations of the current phase exist on a given
/// handle, and the only way to reach the next phase consumes the current
/// one — the order can neither be violated nor rewound.
pub struct BlockSpaceAllocator<State> {
    /// Zero-sized phase marker; the phase lives in the type alone.
    pub _state: core::marker::PhantomData<State>,
    /// The block's total byte budget.
    pub block: u64,
    /// Bin for transactions decrypted from the previous epoch.
    pub decrypted_txs: TxBin,
    /// Bin for protocol transactions.
    pub protocol_txs: TxBin,
    /// Bin for newly submitted encrypted wrapper transactions.
    pub encrypted_txs: TxBin,
}

impl<State> BlockSpaceAllocator<State> {
    /// Total capacity handed out to the three bins.
    pub open spec fn allotted_total(self) -> int {
        self.decrypted_txs.allotted + self.protocol_txs.allotted
            + self.encrypted_txs.allotted
    }

    /// Total bytes admitted into the block so far, over all categories.
    pub open spec fn occupied_total(self) -> int {
        self.decrypted_txs.occupied + self.protocol_txs.occupied
            + self.encrypted_txs.occupied
    }

    /// The allocator's invariant: every bin is well formed, and the bins'
    /// capacities together never exceed the block's byte budget.
    pub open spec fn wf(self) -> bool {
        &&& self.decrypted_txs.wf()
        &&& self.protocol_txs.wf()
        &&& self.encrypted_txs.wf()
        &&& self.allotted_total() <= self.block
    }

    /// Budget not yet handed to any bin.
    fn uninitialized_space_in_bytes(&self) -> (r: u64)
        requires
            self.wf(),
        ensures
            r == self.block - self.allotted_total(),
    {
        self.block - self.decrypted_txs.allotted - self.protocol_txs.allotted
            - self.encrypted_txs.allotted
    }
}

/// Law: a well-formed allocator never holds more bytes, over all three
/// category bins together, than the block's byte budget. Every operation
/// below preserves well-formedness, so this bound holds at every
/// intermediate point of block construction, not only at the end.
pub proof fn lemma_occupied_within_block_budget<State>(a: BlockSpaceAllocator<State>)
    requires
        a.wf(),
    ensures
        a.occupied_total() <= a.block,
{
}

impl BlockSpaceAllocator<BuildingDecryptedTxBatch> {
    /// Start block construction: the whole budget is offered to the
    /// decrypted-transaction phase; later phases hold zero-capacity
    /// placeholders until their turn carves capacity out of what is left.
    pub fn new(block_budget: u64) -> (a: Self)
        ensures
            a.wf(),
            a.block == block_budget,
            a.decrypted_txs.allotted == block_budget,
            a.decrypted_txs.occupied == 0,
            a.protocol_txs == (TxBin { allotted: 0u64, occupied: 0u64 }),
            a.encrypted_txs == (TxBin { allotted: 0u64, occupied: 0u64 }),
    {
        BlockSpaceAllocator {
            _state: core::marker::PhantomData,
            block: block_budget,
            decrypted_txs: TxBin::init(block_budget),
            protocol_txs: TxBin::init(0),
            encrypted_txs: TxBin::init(0),
        }
    }

    /// Offer a decrypted transaction's bytes to the block: delegates to the
    /// decrypted-transaction bin and touches nothing else.
    pub fn try_alloc(&mut self, tx: &[u8]) -> (r: Result<(), AllocFailure>)
        requires
            old(self).wf(),
        ensures
            final(self).wf(),
            final(self).block == old(self).block,
            final(self).protocol_txs == old(self).protocol_txs,
            final(self).encrypted_txs == old(self).encrypted_txs,
            final(self).decrypted_txs.allotted == old(self).decrypted_txs.allotted,
            old(self).decrypted_txs.occupied + tx@.len() <= old(self).decrypted_txs.allotted ==> {
                &&& r is Ok
                &&& final(self).decrypted_txs.occupied
                    == old(self).decrypted_txs.occupied + tx@.len()
            },
            old(self).decrypted_txs.occupied + tx@.len() > old(self).decrypted_txs.allotted ==> {
                &&& r == Err::<(), AllocFailure>(AllocFailure::ExceedsBin)
                &&& *final(self) == *old(self)
            },
    {
        self.decrypted_txs.try_dump(tx)
    }

    /// Close the decrypted-transaction phase: shrink its bin to its
    /// occupancy and hand every unallocated byte to the protocol phase.
    pub fn next_state(self) -> (next: BlockSpaceAllocator<BuildingProtocolTxBatch>)
        requires
            self.wf(),
        ensures
            next.wf(),
            next.block == self.block,
            next.decrypted_txs.allotted == self.decrypted_txs.occupied,
            next.decrypted_txs.occupied == self.decrypted_txs.occupied,
            next.protocol_txs.occupied == 0,
            next.protocol_txs.allotted == self.block - self.decrypted_txs.occupied
                - self.protocol_txs.allotted - self.encrypted_txs.allotted,
            next.encrypted_txs == self.encrypted_txs,
    {
        let mut cur = self;
        cur.decrypted_txs.shrink_to_fit();
        let remaining_free_space = cur.uninitialized_space_in_bytes();
        cur.protocol_txs = TxBin::init(remaining_free_space);
        let BlockSpaceAllocator { _state, block, decrypted_txs, protocol_txs, encrypted_txs } = cur;
        BlockSpaceAllocator {
            _state: core::marker::PhantomData,
            block,
            decrypted_txs,
            protocol_txs,
            encrypted_txs,
        }
    }
}

impl BlockSpaceAllocator<BuildingProtocolTxBatch> {
    /// Offer a protocol transaction's bytes to the block: delegates to the
    /// protocol-transaction bin and touches nothing else.
    pub fn try_alloc(&mut self, tx: &[u8]) -> (r: Result<(), AllocFailure>)
        requires
            old(self).wf(),
        ensures
            final(self).wf(),
            final(self).block == old(self).block,
            final(self).decrypted_txs == old(self).decrypted_txs,
            final(self).encrypted_txs == old(self).encrypted_txs,
            final(self).protocol_txs.allotted == old(self).protocol_txs.allotted,
            old(self).protocol_txs.occupied + tx@.len() <= old(self).protocol_txs.allotted ==> {
                &&& r is Ok
                &&& final(self).protocol_txs.occupied
                    == old(self).protocol_txs.occupied + tx@.len()
            },
            old(self).protocol_txs.occupied + tx@.len() > old(self).protocol_txs.allotted ==> {
                &&& r == Err::<(), AllocFailure>(AllocFailure::ExceedsBin)
                &&& *final(self) == *old(self)
            },
    {
        self.protocol_txs.try_dump(tx)
    }

    /// Close the protocol-transaction phase: shrink its bin to its
    /// occupancy and hand every unallocated byte to the encrypted phase.
    pub fn next_state(self) -> (next: BlockSpaceAllocator<BuildingEncryptedTxBatch>)
        requires
            self.wf(),
        ensures
            next.wf(),
            next.block == self.block,
            next.protocol_txs.allotted == self.protocol_txs.occupied,
            next.protocol_txs.occupied == self.protocol_txs.occupied,
            next.decrypted_txs == self.decrypted_txs,
            next.encrypted_txs.occupied == 0,
            next.encrypted_txs.allotted == self.block - self.protocol_txs.occupied
                - self.decrypted_txs.allotted - self.encrypted_txs.allotted,
    {
        let mut cur = self;
        cur.protocol_txs.shrink_to_fit();
        let remaining_free_space = cur.uninitialized_space_in_bytes();
        cur.encrypted_txs = TxBin::init(remaining_free_space);
        let BlockSpaceAllocator { _state, block, decrypted_txs, protocol_txs, encrypted_txs } = cur;
        BlockSpaceAllocator {
            _state: core::marker::PhantomData,
            block,
            decrypted_txs,
            protocol_txs,
            encrypted_txs,
        }
    }
}

impl BlockSpaceAllocator<BuildingEncryptedTxBatch> {
    /// Offer a newly submitted encrypted wrapper transaction's bytes to the
    /// block: delegates to the encrypted-transaction bin and touches
    /// nothing else. This is the final phase; when the driver is done the
    /// allocator is simply discarded.
    pub fn try_alloc(&mut self, tx: &[u8]) -> (r: Result<(), AllocFailure>)
        requires
            old(self).wf(),
        ensures
            final(self).wf(),
            final(self).block == old(self).block,
            final(self).decrypted_txs == old(self).decrypted_txs,
            final(self).protocol_txs == old(self).protocol_txs,
            final(self).encrypted_txs.allotted == old(self).encrypted_txs.allotted,
            old(self).encrypted_txs.occupied + tx@.len() <= old(self).encrypted_txs.allotted ==> {
                &&& r is Ok
                &&& final(self).encrypted_txs.occupied
                    == old(self).encrypted_txs.occupied + tx@.len()
            },
            old(self).encrypted_txs.occupied + tx@.len() > old(self).encrypted_txs.allotted ==> {
                &&& r == Err::<(), AllocFailure>(AllocFailure::ExceedsBin)
                &&& *final(self) == *old(self)
            },
    {
        self.encrypted_txs.try_dump(tx)
    }
}

} // verus!

