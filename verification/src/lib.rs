//! Block-construction admission core: the byte-budget allocator that
//! partitions a block's space across transaction categories, and the
//! wrapper-transaction envelope that keeps an inner payload confidential
//! until an epoch key is revealed, bound to its fee metadata by a
//! commitment and an outer signature.

pub mod block_space;
pub mod codec;
pub mod crypto;
pub mod tx;
pub mod wrapper;
