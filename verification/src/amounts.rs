//! Plain value types for token amounts, gas, batch IDs and block time.

use vstd::prelude::*;

verus! {

/// 1 NEAR expressed in yoctoNEAR
pub const YOCTO: u128 = 1_000_000_000_000_000_000_000_000;

/// amount of NEAR in yoctoNEAR
#[derive(Debug, Clone, Copy, PartialEq, Eq, Structural)]
pub struct YoctoNear(pub u128);

impl YoctoNear {
    pub fn value(&self) -> (r: u128)
        ensures
            r == self.0,
    {
        self.0
    }
}

impl Default for YoctoNear {
    fn default() -> (r: Self)
        ensures
            r.0 == 0,
    {
        YoctoNear(0)
    }
}

/// amount of STAKE in yoctoSTAKE
#[derive(Debug, Clone, Copy, PartialEq, Eq, Structural)]
pub struct YoctoStake(pub u128);

impl YoctoStake {
    pub fn value(&self) -> (r: u128)
        ensures
            r == self.0,
    {
        self.0
    }
}

impl Default for YoctoStake {
    fn default() -> (r: Self)
        ensures
            r.0 == 0,
    {
        YoctoStake(0)
    }
}

/// identifies a stake batch or a redeem stake batch
#[derive(Debug, Clone, Copy, PartialEq, Eq, Structural)]
pub struct BatchId(pub u128);

impl BatchId {
    pub fn value(&self) -> (r: u128)
        ensures
            r == self.0,
    {
        self.0
    }
}

impl Default for BatchId {
    fn default() -> (r: Self)
        ensures
            r.0 == 0,
    {
        BatchId(0)
    }
}

/// amount of gas
#[derive(Debug, Clone, Copy, PartialEq, Eq, Structural)]
pub struct Gas(pub u64);

/// 1 teraGas, in gas units
pub const TGAS: u64 = 1_000_000_000_000;

impl Gas {
    pub fn value(&self) -> (r: u64)
        ensures
            r == self.0,
    {
        self.0
    }
}

impl Default for Gas {
    fn default() -> (r: Self)
        ensures
            r.0 == 0,
    {
        Gas(0)
    }
}

#[derive(Debug, Clone, Copy, PartialEq, Eq, Structural)]
pub struct EpochHeight(pub u64);

impl EpochHeight {
    pub fn value(&self) -> (r: u64)
        ensures
            r == self.0,
    {
        self.0
    }
}

#[derive(Debug, Clone, Copy, PartialEq, Eq, Structural)]
pub struct BlockHeight(pub u64);

impl BlockHeight {
    pub fn value(&self) -> (r: u64)
        ensures
            r == self.0,
    {
        self.0
    }
}

#[derive(Debug, Clone, Copy, PartialEq, Eq, Structural)]
pub struct BlockTimestamp(pub u64);

impl BlockTimestamp {
    pub fn value(&self) -> (r: u64)
        ensures
            r == self.0,
    {
        self.0
    }
}

/// storage usage in bytes
#[derive(Debug, Clone, Copy, PartialEq, Eq, Structural)]
pub struct StorageUsage(pub u64);

impl StorageUsage {
    pub fn value(&self) -> (r: u64)
        ensures
            r == self.0,
    {
        self.0
    }
}

/// a point in blockchain time: block height, block timestamp and epoch height
#[derive(Debug, Clone, Copy, PartialEq, Eq, Structural)]
pub struct BlockTimeHeight {
    pub block_height: BlockHeight,
    pub block_timestamp: BlockTimestamp,
    pub epoch_height: EpochHeight,
}

impl BlockTimeHeight {
    pub fn new(block_height: u64, block_timestamp: u64, epoch_height: u64) -> (r: Self)
        ensures
            r.block_height.0 == block_height,
            r.block_timestamp.0 == block_timestamp,
            r.epoch_height.0 == epoch_height,
    {
        BlockTimeHeight {
            block_height: BlockHeight(block_height),
            block_timestamp: BlockTimestamp(block_timestamp),
            epoch_height: EpochHeight(epoch_height),
        }
    }

    pub fn block_height(&self) -> (r: BlockHeight)
        ensures
            r == self.block_height,
    {
        self.block_height
    }

    pub fn block_timestamp(&self) -> (r: BlockTimestamp)
        ensures
            r == self.block_timestamp,
    {
        self.block_timestamp
    }

    pub fn epoch_height(&self) -> (r: EpochHeight)
        ensures
            r == self.epoch_height,
    {
        self.epoch_height
    }
}

impl Default for BlockTimeHeight {
    fn default() -> (r: Self)
        ensures
            r.block_height.0 == 0,
            r.block_timestamp.0 == 0,
            r.epoch_height.0 == 0,
    {
        BlockTimeHeight {
            block_height: BlockHeight(0),
            block_timestamp: BlockTimestamp(0),
            epoch_height: EpochHeight(0),
        }
    }
}

} // verus!
