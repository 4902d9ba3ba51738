//! The identity of the machine and its product family.

use vstd::prelude::*;

verus! {

/// A product family.
#[derive(Debug, Clone, Copy, PartialEq, Eq, Structural)]
pub enum Series {
    Legion,
    LOQ,
    IdeaPad,
    Unknown,
}

/// Whether the control surfaces of a family are known.
pub open spec fn series_supported(series: Series) -> bool {
    series == Series::Legion || series == Series::LOQ
}

impl Series {
    /// Whether the control surfaces of this family are known.
    pub fn has_known_controls(&self) -> (known: bool)
        ensures
            known == series_supported(*self),
    {
        match self {
            Series::Legion => true,
            Series::LOQ => true,
            _ => false,
        }
    }
}

/// What one resolution of the device identity found.
#[derive(Debug, Clone)]
pub struct LaptopModel {
    pub manufacturer: String,
    pub model_name: String,
    pub series: Series,
    pub bios_version: String,
    pub supported: bool,
}

impl LaptopModel {
    /// The verdict agrees with the family: supported exactly for the
    /// families whose control surfaces are known.
    pub open spec fn wf(&self) -> bool {
        self.supported == series_supported(self.series)
    }

    /// The supported verdict.
    pub fn is_supported(&self) -> (supported: bool)
        ensures
            supported == self.supported,
            self.wf() ==> supported == series_supported(self.series),
    {
        self.supported
    }
}

} // verus!
