//! Scanner device value types: the transfer mode for scanned data.

use vstd::prelude::*;

verus! {

/// Transfer mode used when moving scan data out of a functional unit.
#[derive(Clone, Copy, Debug, PartialEq, Eq, Structural)]
pub enum ICScannerTransferMode {
    /// Save the scan as a file.
    ICScannerTransferModeFileBased,
    /// Transfer the scan as in-memory banded data.
    ICScannerTransferModeMemoryBased,
}

impl ICScannerTransferMode {
    /// The numeric value this variant is carried as across the runtime
    /// boundary.
    pub open spec fn spec_raw(self) -> int {
        match self {
            ICScannerTransferMode::ICScannerTransferModeFileBased => 0,
            ICScannerTransferMode::ICScannerTransferModeMemoryBased => 1,
        }
    }

    /// Encode this value as its numeric wire value.
    pub fn to_raw(self) -> (r: u64)
        ensures
            r == self.spec_raw(),
    {
        match self {
            ICScannerTransferMode::ICScannerTransferModeFileBased => 0,
            ICScannerTransferMode::ICScannerTransferModeMemoryBased => 1,
        }
    }

    /// Decode a numeric wire value: returns the unique variant carried
    /// as `raw`, and `None` exactly when no variant is.
    pub fn from_raw(raw: u64) -> (r: Option<Self>)
        ensures
            r matches Some(v) ==> v.spec_raw() == raw,
            r is None ==> forall|v: Self| v.spec_raw() != raw,
    {
        match raw {
            0 => Some(ICScannerTransferMode::ICScannerTransferModeFileBased),
            1 => Some(ICScannerTransferMode::ICScannerTransferModeMemoryBased),
            _ => None,
        }
    }

    /// Distinct variants have distinct wire values, so decoding a wire
    /// value determines the variant uniquely.
    pub proof fn lemma_raw_injective(a: Self, b: Self)
        ensures
            a.spec_raw() == b.spec_raw() ==> a == b,
    {
    }
}

} // verus!
