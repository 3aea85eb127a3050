//! Conversions between the value types and the integers they wrap, and the arithmetic on epoch
//! heights and storage usage.

use crate::amounts::{BatchId, EpochHeight, StorageUsage, YoctoNear, YoctoStake};
use vstd::prelude::*;
use vstd::std_specs::convert::FromSpecImpl;
use vstd::std_specs::ops::AddSpecImpl;

verus! {

impl From<u128> for YoctoNear {
    /// an amount of yoctoNEAR
    fn from(value: u128) -> (r: Self) {
        YoctoNear(value)
    }
}

impl FromSpecImpl<u128> for YoctoNear {
    open spec fn obeys_from_spec() -> bool {
        true
    }

    open spec fn from_spec(value: u128) -> Self {
        YoctoNear(value)
    }
}

impl From<YoctoNear> for u128 {
    fn from(value: YoctoNear) -> (r: Self) {
        value.0
    }
}

impl FromSpecImpl<YoctoNear> for u128 {
    open spec fn obeys_from_spec() -> bool {
        true
    }

    open spec fn from_spec(value: YoctoNear) -> Self {
        value.0
    }
}

impl From<u128> for YoctoStake {
    /// an amount of yoctoSTAKE
    fn from(value: u128) -> (r: Self) {
        YoctoStake(value)
    }
}

impl FromSpecImpl<u128> for YoctoStake {
    open spec fn obeys_from_spec() -> bool {
        true
    }

    open spec fn from_spec(value: u128) -> Self {
        YoctoStake(value)
    }
}

impl From<YoctoStake> for u128 {
    fn from(value: YoctoStake) -> (r: Self) {
        value.0
    }
}

impl FromSpecImpl<YoctoStake> for u128 {
    open spec fn obeys_from_spec() -> bool {
        true
    }

    open spec fn from_spec(value: YoctoStake) -> Self {
        value.0
    }
}

impl From<u128> for BatchId {
    /// a batch ID
    fn from(value: u128) -> (r: Self) {
        BatchId(value)
    }
}

impl FromSpecImpl<u128> for BatchId {
    open spec fn obeys_from_spec() -> bool {
        true
    }

    open spec fn from_spec(value: u128) -> Self {
        BatchId(value)
    }
}

impl From<BatchId> for u128 {
    fn from(value: BatchId) -> (r: Self) {
        value.0
    }
}

impl FromSpecImpl<BatchId> for u128 {
    open spec fn obeys_from_spec() -> bool {
        true
    }

    open spec fn from_spec(value: BatchId) -> Self {
        value.0
    }
}

impl From<u64> for EpochHeight {
    /// an epoch height
    fn from(value: u64) -> (r: Self) {
        EpochHeight(value)
    }
}

impl FromSpecImpl<u64> for EpochHeight {
    open spec fn obeys_from_spec() -> bool {
        true
    }

    open spec fn from_spec(value: u64) -> Self {
        EpochHeight(value)
    }
}

impl From<EpochHeight> for u64 {
    fn from(value: EpochHeight) -> (r: Self) {
        value.0
    }
}

impl FromSpecImpl<EpochHeight> for u64 {
    open spec fn obeys_from_spec() -> bool {
        true
    }

    open spec fn from_spec(value: EpochHeight) -> Self {
        value.0
    }
}

impl From<u64> for StorageUsage {
    /// a storage usage in bytes
    fn from(value: u64) -> (r: Self) {
        StorageUsage(value)
    }
}

impl FromSpecImpl<u64> for StorageUsage {
    open spec fn obeys_from_spec() -> bool {
        true
    }

    open spec fn from_spec(value: u64) -> Self {
        StorageUsage(value)
    }
}

impl From<StorageUsage> for u64 {
    fn from(value: StorageUsage) -> (r: Self) {
        value.0
    }
}

impl FromSpecImpl<StorageUsage> for u64 {
    open spec fn obeys_from_spec() -> bool {
        true
    }

    open spec fn from_spec(value: StorageUsage) -> Self {
        value.0
    }
}

impl core::ops::Add<u64> for EpochHeight {
    type Output = EpochHeight;

    /// the epoch height `rhs` epochs later
    fn add(self, rhs: u64) -> (r: EpochHeight) {
        EpochHeight(self.0 + rhs)
    }
}

impl AddSpecImpl<u64> for EpochHeight {
    open spec fn obeys_add_spec() -> bool {
        true
    }

    open spec fn add_req(self, rhs: u64) -> bool {
        self.0 + rhs <= u64::MAX
    }

    open spec fn add_spec(self, rhs: u64) -> EpochHeight {
        EpochHeight((self.0 + rhs) as u64)
    }
}

impl core::ops::Add<EpochHeight> for EpochHeight {
    type Output = EpochHeight;

    fn add(self, rhs: EpochHeight) -> (r: EpochHeight) {
        EpochHeight(self.0 + rhs.0)
    }
}

impl AddSpecImpl<EpochHeight> for EpochHeight {
    open spec fn obeys_add_spec() -> bool {
        true
    }

    open spec fn add_req(self, rhs: EpochHeight) -> bool {
        self.0 + rhs.0 <= u64::MAX
    }

    open spec fn add_spec(self, rhs: EpochHeight) -> EpochHeight {
        EpochHeight((self.0 + rhs.0) as u64)
    }
}

} // verus!
