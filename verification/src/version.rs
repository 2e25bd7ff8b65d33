//! Version checks for operations that newer native releases introduced.
//!
//! Some operations and enum values exist only from a certain native library
//! version onward. The running library reports its version once; the
//! capability checks below turn that report into the decision whether a
//! version-dependent group of operations may be used, so no call site carries its own
//! version arithmetic.

use vstd::prelude::*;

verus! {

/// The version of the native library the process is running against, as the
/// three components of its release number.
#[derive(Debug, Clone, Copy, PartialEq, Eq, Structural)]
pub struct NativeVersion {
    pub major: u32,
    pub minor: u32,
    pub patch: u32,
}

impl NativeVersion {
    /// Whether this version is the given release or a later one, in
    /// lexicographic order of (major, minor, patch).
    pub open spec fn spec_at_least(self, major: u32, minor: u32, patch: u32) -> bool {
        self.major > major || (self.major == major && (self.minor > minor || (self.minor == minor
            && self.patch >= patch)))
    }

    /// Whether this version is the given release or a later one.
    pub fn at_least(&self, major: u32, minor: u32, patch: u32) -> (r: bool)
        ensures
            r == self.spec_at_least(major, minor, patch),
    {
        self.major > major || (self.major == major && (self.minor > minor || (self.minor == minor
            && self.patch >= patch)))
    }
}

/// A group of operations whose availability depends on the native version.
#[derive(Debug, Clone, Copy, PartialEq, Eq, Structural)]
pub enum Feature {
    /// The width and height resource limits.
    WidthHeightResources,
    /// Reading and setting the gravity of an image.
    ImageGravity,
    /// Orientation, iteration count and per-format options of an image.
    ImageOrientation,
    /// Displaying images and querying colormap, grayscale, monochrome,
    /// opacity and palette characteristics.
    ImageCharacteristics,
}

impl Feature {
    /// The first native release that provides this group.
    pub open spec fn spec_min_version(self) -> NativeVersion {
        match self {
            Feature::WidthHeightResources => NativeVersion { major: 1, minor: 3, patch: 21 },
            Feature::ImageGravity => NativeVersion { major: 1, minor: 3, patch: 22 },
            Feature::ImageOrientation => NativeVersion { major: 1, minor: 3, patch: 26 },
            Feature::ImageCharacteristics => NativeVersion { major: 1, minor: 3, patch: 29 },
        }
    }

    /// The first native release that provides this group.
    pub fn min_version(self) -> (v: NativeVersion)
        ensures
            v == self.spec_min_version(),
    {
        match self {
            Feature::WidthHeightResources => NativeVersion { major: 1, minor: 3, patch: 21 },
            Feature::ImageGravity => NativeVersion { major: 1, minor: 3, patch: 22 },
            Feature::ImageOrientation => NativeVersion { major: 1, minor: 3, patch: 26 },
            Feature::ImageCharacteristics => NativeVersion { major: 1, minor: 3, patch: 29 },
        }
    }
}

/// Whether the running native library provides the given group of
/// operations: exactly when its version reaches the group's first release.
pub fn supports(version: &NativeVersion, feature: Feature) -> (r: bool)
    ensures
        r == version.spec_at_least(
            feature.spec_min_version().major,
            feature.spec_min_version().minor,
            feature.spec_min_version().patch,
        ),
{
    let m = feature.min_version();
    version.at_least(m.major, m.minor, m.patch)
}

} // verus!
