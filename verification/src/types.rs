//! Translation between the typed enumerations of this binding and the
//! integer constants of the native library.
//!
//! Each category below mirrors one native enumeration. `to_native` is total
//! and lossless by construction; `from_native` maps every integer the native
//! library defines to its variant and every other integer to the `Unknown`
//! sentinel, the one policy used across all categories. A round-trip law is
//! stated and proved beside each category.
//!
//! <http://www.graphicsmagick.org/api/types.html>

use vstd::prelude::*;

verus! {


/// Selects one color or opacity channel of an image.
///
/// <http://www.graphicsmagick.org/api/types.html#channeltype>
#[derive(Debug, Clone, Copy, PartialEq, Eq, Structural)]
pub enum ChannelType {
    UndefinedChannel,
    RedChannel,
    CyanChannel,
    GreenChannel,
    MagentaChannel,
    BlueChannel,
    YellowChannel,
    OpacityChannel,
    BlackChannel,
    MatteChannel,
    AllChannels,
    GrayChannel,
    /// Stands for any native value outside the known constants.
    Unknown,
}

impl ChannelType {
    /// The native integer constant this variant stands for.
    pub open spec fn spec_to_native(self) -> u32 {
        match self {
            ChannelType::UndefinedChannel => 0,
            ChannelType::RedChannel => 1,
            ChannelType::CyanChannel => 2,
            ChannelType::GreenChannel => 3,
            ChannelType::MagentaChannel => 4,
            ChannelType::BlueChannel => 5,
            ChannelType::YellowChannel => 6,
            ChannelType::OpacityChannel => 7,
            ChannelType::BlackChannel => 8,
            ChannelType::MatteChannel => 9,
            ChannelType::AllChannels => 10,
            ChannelType::GrayChannel => 11,
            ChannelType::Unknown => u32::MAX,
        }
    }

    /// The variant standing for the native integer `u`; integers outside
    /// the known constants map to the `Unknown` sentinel.
    pub open spec fn spec_from_native(u: u32) -> ChannelType {
        if u == 0 {
            ChannelType::UndefinedChannel
        } else if u == 1 {
            ChannelType::RedChannel
        } else if u == 2 {
            ChannelType::CyanChannel
        } else if u == 3 {
            ChannelType::GreenChannel
        } else if u == 4 {
            ChannelType::MagentaChannel
        } else if u == 5 {
            ChannelType::BlueChannel
        } else if u == 6 {
            ChannelType::YellowChannel
        } else if u == 7 {
            ChannelType::OpacityChannel
        } else if u == 8 {
            ChannelType::BlackChannel
        } else if u == 9 {
            ChannelType::MatteChannel
        } else if u == 10 {
            ChannelType::AllChannels
        } else if u == 11 {
            ChannelType::GrayChannel
        } else {
            ChannelType::Unknown
        }
    }

    /// Translate this variant to the native integer constant.
    pub fn to_native(self) -> (r: u32)
        ensures
            r == self.spec_to_native(),
    {
        match self {
            ChannelType::UndefinedChannel => 0,
            ChannelType::RedChannel => 1,
            ChannelType::CyanChannel => 2,
            ChannelType::GreenChannel => 3,
            ChannelType::MagentaChannel => 4,
            ChannelType::BlueChannel => 5,
            ChannelType::YellowChannel => 6,
            ChannelType::OpacityChannel => 7,
            ChannelType::BlackChannel => 8,
            ChannelType::MatteChannel => 9,
            ChannelType::AllChannels => 10,
            ChannelType::GrayChannel => 11,
            ChannelType::Unknown => u32::MAX,
        }
    }

    /// Translate a native integer constant to the variant standing for
    /// it, with unrecognized values mapping to `Unknown`.
    pub fn from_native(u: u32) -> (r: ChannelType)
        ensures
            r == ChannelType::spec_from_native(u),
    {
        if u == 0 {
            ChannelType::UndefinedChannel
        } else if u == 1 {
            ChannelType::RedChannel
        } else if u == 2 {
            ChannelType::CyanChannel
        } else if u == 3 {
            ChannelType::GreenChannel
        } else if u == 4 {
            ChannelType::MagentaChannel
        } else if u == 5 {
            ChannelType::BlueChannel
        } else if u == 6 {
            ChannelType::YellowChannel
        } else if u == 7 {
            ChannelType::OpacityChannel
        } else if u == 8 {
            ChannelType::BlackChannel
        } else if u == 9 {
            ChannelType::MatteChannel
        } else if u == 10 {
            ChannelType::AllChannels
        } else if u == 11 {
            ChannelType::GrayChannel
        } else {
            ChannelType::Unknown
        }
    }
}

/// Law: translating any variant to its native constant and back yields the
/// same variant, and translating any known native constant to its variant
/// and back yields the same constant.
pub proof fn lemma_channel_type_round_trip(v: ChannelType, u: u32)
    ensures
        ChannelType::spec_from_native(v.spec_to_native()) == v,
        ChannelType::spec_from_native(u) != ChannelType::Unknown ==> ChannelType::spec_from_native(u).spec_to_native() == u,
{
}

/// Selects the resampling filter used when an image is resized.
///
/// <http://www.graphicsmagick.org/api/types.html#filtertypes>
#[derive(Debug, Clone, Copy, PartialEq, Eq, Structural)]
pub enum FilterTypes {
    UndefinedFilter,
    PointFilter,
    BoxFilter,
    TriangleFilter,
    HermiteFilter,
    HanningFilter,
    HammingFilter,
    BlackmanFilter,
    GaussianFilter,
    QuadraticFilter,
    CubicFilter,
    CatromFilter,
    MitchellFilter,
    LanczosFilter,
    BesselFilter,
    SincFilter,
    /// Stands for any native value outside the known constants.
    Unknown,
}

impl FilterTypes {
    /// The native integer constant this variant stands for.
    pub open spec fn spec_to_native(self) -> u32 {
        match self {
            FilterTypes::UndefinedFilter => 0,
            FilterTypes::PointFilter => 1,
            FilterTypes::BoxFilter => 2,
            FilterTypes::TriangleFilter => 3,
            FilterTypes::HermiteFilter => 4,
            FilterTypes::HanningFilter => 5,
            FilterTypes::HammingFilter => 6,
            FilterTypes::BlackmanFilter => 7,
            FilterTypes::GaussianFilter => 8,
            FilterTypes::QuadraticFilter => 9,
            FilterTypes::CubicFilter => 10,
            FilterTypes::CatromFilter => 11,
            FilterTypes::MitchellFilter => 12,
            FilterTypes::LanczosFilter => 13,
            FilterTypes::BesselFilter => 14,
            FilterTypes::SincFilter => 15,
            FilterTypes::Unknown => u32::MAX,
        }
    }

    /// The variant standing for the native integer `u`; integers outside
    /// the known constants map to the `Unknown` sentinel.
    pub open spec fn spec_from_native(u: u32) -> FilterTypes {
        if u == 0 {
            FilterTypes::UndefinedFilter
        } else if u == 1 {
            FilterTypes::PointFilter
        } else if u == 2 {
            FilterTypes::BoxFilter
        } else if u == 3 {
            FilterTypes::TriangleFilter
        } else if u == 4 {
            FilterTypes::HermiteFilter
        } else if u == 5 {
            FilterTypes::HanningFilter
        } else if u == 6 {
            FilterTypes::HammingFilter
        } else if u == 7 {
            FilterTypes::BlackmanFilter
        } else if u == 8 {
            FilterTypes::GaussianFilter
        } else if u == 9 {
            FilterTypes::QuadraticFilter
        } else if u == 10 {
            FilterTypes::CubicFilter
        } else if u == 11 {
            FilterTypes::CatromFilter
        } else if u == 12 {
            FilterTypes::MitchellFilter
        } else if u == 13 {
            FilterTypes::LanczosFilter
        } else if u == 14 {
            FilterTypes::BesselFilter
        } else if u == 15 {
            FilterTypes::SincFilter
        } else {
            FilterTypes::Unknown
        }
    }

    /// Translate this variant to the native integer constant.
    pub fn to_native(self) -> (r: u32)
        ensures
            r == self.spec_to_native(),
    {
        match self {
            FilterTypes::UndefinedFilter => 0,
            FilterTypes::PointFilter => 1,
            FilterTypes::BoxFilter => 2,
            FilterTypes::TriangleFilter => 3,
            FilterTypes::HermiteFilter => 4,
            FilterTypes::HanningFilter => 5,
            FilterTypes::HammingFilter => 6,
            FilterTypes::BlackmanFilter => 7,
            FilterTypes::GaussianFilter => 8,
            FilterTypes::QuadraticFilter => 9,
            FilterTypes::CubicFilter => 10,
            FilterTypes::CatromFilter => 11,
            FilterTypes::MitchellFilter => 12,
            FilterTypes::LanczosFilter => 13,
            FilterTypes::BesselFilter => 14,
            FilterTypes::SincFilter => 15,
            FilterTypes::Unknown => u32::MAX,
        }
    }

    /// Translate a native integer constant to the variant standing for
    /// it, with unrecognized values mapping to `Unknown`.
    pub fn from_native(u: u32) -> (r: FilterTypes)
        ensures
            r == FilterTypes::spec_from_native(u),
    {
        if u == 0 {
            FilterTypes::UndefinedFilter
        } else if u == 1 {
            FilterTypes::PointFilter
        } else if u == 2 {
            FilterTypes::BoxFilter
        } else if u == 3 {
            FilterTypes::TriangleFilter
        } else if u == 4 {
            FilterTypes::HermiteFilter
        } else if u == 5 {
            FilterTypes::HanningFilter
        } else if u == 6 {
            FilterTypes::HammingFilter
        } else if u == 7 {
            FilterTypes::BlackmanFilter
        } else if u == 8 {
            FilterTypes::GaussianFilter
        } else if u == 9 {
            FilterTypes::QuadraticFilter
        } else if u == 10 {
            FilterTypes::CubicFilter
        } else if u == 11 {
            FilterTypes::CatromFilter
        } else if u == 12 {
            FilterTypes::MitchellFilter
        } else if u == 13 {
            FilterTypes::LanczosFilter
        } else if u == 14 {
            FilterTypes::BesselFilter
        } else if u == 15 {
            FilterTypes::SincFilter
        } else {
            FilterTypes::Unknown
        }
    }
}

/// Law: translating any variant to its native constant and back yields the
/// same variant, and translating any known native constant to its variant
/// and back yields the same constant.
pub proof fn lemma_filter_types_round_trip(v: FilterTypes, u: u32)
    ensures
        FilterTypes::spec_from_native(v.spec_to_native()) == v,
        FilterTypes::spec_from_native(u) != FilterTypes::Unknown ==> FilterTypes::spec_from_native(u).spec_to_native() == u,
{
}

/// Selects the algorithm used to compose a composite image with an image.
///
/// <http://www.graphicsmagick.org/api/types.html#compositeoperator>
#[derive(Debug, Clone, Copy, PartialEq, Eq, Structural)]
pub enum CompositeOperator {
    UndefinedCompositeOp,
    OverCompositeOp,
    InCompositeOp,
    OutCompositeOp,
    AtopCompositeOp,
    XorCompositeOp,
    PlusCompositeOp,
    MinusCompositeOp,
    AddCompositeOp,
    SubtractCompositeOp,
    DifferenceCompositeOp,
    MultiplyCompositeOp,
    BumpmapCompositeOp,
    CopyCompositeOp,
    CopyRedCompositeOp,
    CopyGreenCompositeOp,
    CopyBlueCompositeOp,
    CopyOpacityCompositeOp,
    ClearCompositeOp,
    DissolveCompositeOp,
    DisplaceCompositeOp,
    ModulateCompositeOp,
    ThresholdCompositeOp,
    NoCompositeOp,
    DarkenCompositeOp,
    LightenCompositeOp,
    HueCompositeOp,
    SaturateCompositeOp,
    ColorizeCompositeOp,
    LuminizeCompositeOp,
    ScreenCompositeOp,
    OverlayCompositeOp,
    CopyCyanCompositeOp,
    CopyMagentaCompositeOp,
    CopyYellowCompositeOp,
    CopyBlackCompositeOp,
    DivideCompositeOp,
    HardLightCompositeOp,
    ExclusionCompositeOp,
    ColorDodgeCompositeOp,
    ColorBurnCompositeOp,
    SoftLightCompositeOp,
    LinearBurnCompositeOp,
    LinearDodgeCompositeOp,
    LinearLightCompositeOp,
    VividLightCompositeOp,
    PinLightCompositeOp,
    HardMixCompositeOp,
    /// Stands for any native value outside the known constants.
    Unknown,
}

impl CompositeOperator {
    /// The native integer constant this variant stands for.
    pub open spec fn spec_to_native(self) -> u32 {
        match self {
            CompositeOperator::UndefinedCompositeOp => 0,
            CompositeOperator::OverCompositeOp => 1,
            CompositeOperator::InCompositeOp => 2,
            CompositeOperator::OutCompositeOp => 3,
            CompositeOperator::AtopCompositeOp => 4,
            CompositeOperator::XorCompositeOp => 5,
            CompositeOperator::PlusCompositeOp => 6,
            CompositeOperator::MinusCompositeOp => 7,
            CompositeOperator::AddCompositeOp => 8,
            CompositeOperator::SubtractCompositeOp => 9,
            CompositeOperator::DifferenceCompositeOp => 10,
            CompositeOperator::MultiplyCompositeOp => 11,
            CompositeOperator::BumpmapCompositeOp => 12,
            CompositeOperator::CopyCompositeOp => 13,
            CompositeOperator::CopyRedCompositeOp => 14,
            CompositeOperator::CopyGreenCompositeOp => 15,
            CompositeOperator::CopyBlueCompositeOp => 16,
            CompositeOperator::CopyOpacityCompositeOp => 17,
            CompositeOperator::ClearCompositeOp => 18,
            CompositeOperator::DissolveCompositeOp => 19,
            CompositeOperator::DisplaceCompositeOp => 20,
            CompositeOperator::ModulateCompositeOp => 21,
            CompositeOperator::ThresholdCompositeOp => 22,
            CompositeOperator::NoCompositeOp => 23,
            CompositeOperator::DarkenCompositeOp => 24,
            CompositeOperator::LightenCompositeOp => 25,
            CompositeOperator::HueCompositeOp => 26,
            CompositeOperator::SaturateCompositeOp => 27,
            CompositeOperator::ColorizeCompositeOp => 28,
            CompositeOperator::LuminizeCompositeOp => 29,
            CompositeOperator::ScreenCompositeOp => 30,
            CompositeOperator::OverlayCompositeOp => 31,
            CompositeOperator::CopyCyanCompositeOp => 32,
            CompositeOperator::CopyMagentaCompositeOp => 33,
            CompositeOperator::CopyYellowCompositeOp => 34,
            CompositeOperator::CopyBlackCompositeOp => 35,
            CompositeOperator::DivideCompositeOp => 36,
            CompositeOperator::HardLightCompositeOp => 37,
            CompositeOperator::ExclusionCompositeOp => 38,
            CompositeOperator::ColorDodgeCompositeOp => 39,
            CompositeOperator::ColorBurnCompositeOp => 40,
            CompositeOperator::SoftLightCompositeOp => 41,
            CompositeOperator::LinearBurnCompositeOp => 42,
            CompositeOperator::LinearDodgeCompositeOp => 43,
            CompositeOperator::LinearLightCompositeOp => 44,
            CompositeOperator::VividLightCompositeOp => 45,
            CompositeOperator::PinLightCompositeOp => 46,
            CompositeOperator::HardMixCompositeOp => 47,
            CompositeOperator::Unknown => u32::MAX,
        }
    }

    /// The variant standing for the native integer `u`; integers outside
    /// the known constants map to the `Unknown` sentinel.
    pub open spec fn spec_from_native(u: u32) -> CompositeOperator {
        if u == 0 {
            CompositeOperator::UndefinedCompositeOp
        } else if u == 1 {
            CompositeOperator::OverCompositeOp
        } else if u == 2 {
            CompositeOperator::InCompositeOp
        } else if u == 3 {
            CompositeOperator::OutCompositeOp
        } else if u == 4 {
            CompositeOperator::AtopCompositeOp
        } else if u == 5 {
            CompositeOperator::XorCompositeOp
        } else if u == 6 {
            CompositeOperator::PlusCompositeOp
        } else if u == 7 {
            CompositeOperator::MinusCompositeOp
        } else if u == 8 {
            CompositeOperator::AddCompositeOp
        } else if u == 9 {
            CompositeOperator::SubtractCompositeOp
        } else if u == 10 {
            CompositeOperator::DifferenceCompositeOp
        } else if u == 11 {
            CompositeOperator::MultiplyCompositeOp
        } else if u == 12 {
            CompositeOperator::BumpmapCompositeOp
        } else if u == 13 {
            CompositeOperator::CopyCompositeOp
        } else if u == 14 {
            CompositeOperator::CopyRedCompositeOp
        } else if u == 15 {
            CompositeOperator::CopyGreenCompositeOp
        } else if u == 16 {
            CompositeOperator::CopyBlueCompositeOp
        } else if u == 17 {
            CompositeOperator::CopyOpacityCompositeOp
        } else if u == 18 {
            CompositeOperator::ClearCompositeOp
        } else if u == 19 {
            CompositeOperator::DissolveCompositeOp
        } else if u == 20 {
            CompositeOperator::DisplaceCompositeOp
        } else if u == 21 {
            CompositeOperator::ModulateCompositeOp
        } else if u == 22 {
            CompositeOperator::ThresholdCompositeOp
        } else if u == 23 {
            CompositeOperator::NoCompositeOp
        } else if u == 24 {
            CompositeOperator::DarkenCompositeOp
        } else if u == 25 {
            CompositeOperator::LightenCompositeOp
        } else if u == 26 {
            CompositeOperator::HueCompositeOp
        } else if u == 27 {
            CompositeOperator::SaturateCompositeOp
        } else if u == 28 {
            CompositeOperator::ColorizeCompositeOp
        } else if u == 29 {
            CompositeOperator::LuminizeCompositeOp
        } else if u == 30 {
            CompositeOperator::ScreenCompositeOp
        } else if u == 31 {
            CompositeOperator::OverlayCompositeOp
        } else if u == 32 {
            CompositeOperator::CopyCyanCompositeOp
        } else if u == 33 {
            CompositeOperator::CopyMagentaCompositeOp
        } else if u == 34 {
            CompositeOperator::CopyYellowCompositeOp
        } else if u == 35 {
            CompositeOperator::CopyBlackCompositeOp
        } else if u == 36 {
            CompositeOperator::DivideCompositeOp
        } else if u == 37 {
            CompositeOperator::HardLightCompositeOp
        } else if u == 38 {
            CompositeOperator::ExclusionCompositeOp
        } else if u == 39 {
            CompositeOperator::ColorDodgeCompositeOp
        } else if u == 40 {
            CompositeOperator::ColorBurnCompositeOp
        } else if u == 41 {
            CompositeOperator::SoftLightCompositeOp
        } else if u == 42 {
            CompositeOperator::LinearBurnCompositeOp
        } else if u == 43 {
            CompositeOperator::LinearDodgeCompositeOp
        } else if u == 44 {
            CompositeOperator::LinearLightCompositeOp
        } else if u == 45 {
            CompositeOperator::VividLightCompositeOp
        } else if u == 46 {
            CompositeOperator::PinLightCompositeOp
        } else if u == 47 {
            CompositeOperator::HardMixCompositeOp
        } else {
            CompositeOperator::Unknown
        }
    }

    /// Translate this variant to the native integer constant.
    pub fn to_native(self) -> (r: u32)
        ensures
            r == self.spec_to_native(),
    {
        match self {
            CompositeOperator::UndefinedCompositeOp => 0,
            CompositeOperator::OverCompositeOp => 1,
            CompositeOperator::InCompositeOp => 2,
            CompositeOperator::OutCompositeOp => 3,
            CompositeOperator::AtopCompositeOp => 4,
            CompositeOperator::XorCompositeOp => 5,
            CompositeOperator::PlusCompositeOp => 6,
            CompositeOperator::MinusCompositeOp => 7,
            CompositeOperator::AddCompositeOp => 8,
            CompositeOperator::SubtractCompositeOp => 9,
            CompositeOperator::DifferenceCompositeOp => 10,
            CompositeOperator::MultiplyCompositeOp => 11,
            CompositeOperator::BumpmapCompositeOp => 12,
            CompositeOperator::CopyCompositeOp => 13,
            CompositeOperator::CopyRedCompositeOp => 14,
            CompositeOperator::CopyGreenCompositeOp => 15,
            CompositeOperator::CopyBlueCompositeOp => 16,
            CompositeOperator::CopyOpacityCompositeOp => 17,
            CompositeOperator::ClearCompositeOp => 18,
            CompositeOperator::DissolveCompositeOp => 19,
            CompositeOperator::DisplaceCompositeOp => 20,
            CompositeOperator::ModulateCompositeOp => 21,
            CompositeOperator::ThresholdCompositeOp => 22,
            CompositeOperator::NoCompositeOp => 23,
            CompositeOperator::DarkenCompositeOp => 24,
            CompositeOperator::LightenCompositeOp => 25,
            CompositeOperator::HueCompositeOp => 26,
            CompositeOperator::SaturateCompositeOp => 27,
            CompositeOperator::ColorizeCompositeOp => 28,
            CompositeOperator::LuminizeCompositeOp => 29,
            CompositeOperator::ScreenCompositeOp => 30,
            CompositeOperator::OverlayCompositeOp => 31,
            CompositeOperator::CopyCyanCompositeOp => 32,
            CompositeOperator::CopyMagentaCompositeOp => 33,
            CompositeOperator::CopyYellowCompositeOp => 34,
            CompositeOperator::CopyBlackCompositeOp => 35,
            CompositeOperator::DivideCompositeOp => 36,
            CompositeOperator::HardLightCompositeOp => 37,
            CompositeOperator::ExclusionCompositeOp => 38,
            CompositeOperator::ColorDodgeCompositeOp => 39,
            CompositeOperator::ColorBurnCompositeOp => 40,
            CompositeOperator::SoftLightCompositeOp => 41,
            CompositeOperator::LinearBurnCompositeOp => 42,
            CompositeOperator::LinearDodgeCompositeOp => 43,
            CompositeOperator::LinearLightCompositeOp => 44,
            CompositeOperator::VividLightCompositeOp => 45,
            CompositeOperator::PinLightCompositeOp => 46,
            CompositeOperator::HardMixCompositeOp => 47,
            CompositeOperator::Unknown => u32::MAX,
        }
    }

    /// Translate a native integer constant to the variant standing for
    /// it, with unrecognized values mapping to `Unknown`.
    pub fn from_native(u: u32) -> (r: CompositeOperator)
        ensures
            r == CompositeOperator::spec_from_native(u),
    {
        if u == 0 {
            CompositeOperator::UndefinedCompositeOp
        } else if u == 1 {
            CompositeOperator::OverCompositeOp
        } else if u == 2 {
            CompositeOperator::InCompositeOp
        } else if u == 3 {
            CompositeOperator::OutCompositeOp
        } else if u == 4 {
            CompositeOperator::AtopCompositeOp
        } else if u == 5 {
            CompositeOperator::XorCompositeOp
        } else if u == 6 {
            CompositeOperator::PlusCompositeOp
        } else if u == 7 {
            CompositeOperator::MinusCompositeOp
        } else if u == 8 {
            CompositeOperator::AddCompositeOp
        } else if u == 9 {
            CompositeOperator::SubtractCompositeOp
        } else if u == 10 {
            CompositeOperator::DifferenceCompositeOp
        } else if u == 11 {
            CompositeOperator::MultiplyCompositeOp
        } else if u == 12 {
            CompositeOperator::BumpmapCompositeOp
        } else if u == 13 {
            CompositeOperator::CopyCompositeOp
        } else if u == 14 {
            CompositeOperator::CopyRedCompositeOp
        } else if u == 15 {
            CompositeOperator::CopyGreenCompositeOp
        } else if u == 16 {
            CompositeOperator::CopyBlueCompositeOp
        } else if u == 17 {
            CompositeOperator::CopyOpacityCompositeOp
        } else if u == 18 {
            CompositeOperator::ClearCompositeOp
        } else if u == 19 {
            CompositeOperator::DissolveCompositeOp
        } else if u == 20 {
            CompositeOperator::DisplaceCompositeOp
        } else if u == 21 {
            CompositeOperator::ModulateCompositeOp
        } else if u == 22 {
            CompositeOperator::ThresholdCompositeOp
        } else if u == 23 {
            CompositeOperator::NoCompositeOp
        } else if u == 24 {
            CompositeOperator::DarkenCompositeOp
        } else if u == 25 {
            CompositeOperator::LightenCompositeOp
        } else if u == 26 {
            CompositeOperator::HueCompositeOp
        } else if u == 27 {
            CompositeOperator::SaturateCompositeOp
        } else if u == 28 {
            CompositeOperator::ColorizeCompositeOp
        } else if u == 29 {
            CompositeOperator::LuminizeCompositeOp
        } else if u == 30 {
            CompositeOperator::ScreenCompositeOp
        } else if u == 31 {
            CompositeOperator::OverlayCompositeOp
        } else if u == 32 {
            CompositeOperator::CopyCyanCompositeOp
        } else if u == 33 {
            CompositeOperator::CopyMagentaCompositeOp
        } else if u == 34 {
            CompositeOperator::CopyYellowCompositeOp
        } else if u == 35 {
            CompositeOperator::CopyBlackCompositeOp
        } else if u == 36 {
            CompositeOperator::DivideCompositeOp
        } else if u == 37 {
            CompositeOperator::HardLightCompositeOp
        } else if u == 38 {
            CompositeOperator::ExclusionCompositeOp
        } else if u == 39 {
            CompositeOperator::ColorDodgeCompositeOp
        } else if u == 40 {
            CompositeOperator::ColorBurnCompositeOp
        } else if u == 41 {
            CompositeOperator::SoftLightCompositeOp
        } else if u == 42 {
            CompositeOperator::LinearBurnCompositeOp
        } else if u == 43 {
            CompositeOperator::LinearDodgeCompositeOp
        } else if u == 44 {
            CompositeOperator::LinearLightCompositeOp
        } else if u == 45 {
            CompositeOperator::VividLightCompositeOp
        } else if u == 46 {
            CompositeOperator::PinLightCompositeOp
        } else if u == 47 {
            CompositeOperator::HardMixCompositeOp
        } else {
            CompositeOperator::Unknown
        }
    }
}

/// Law: translating any variant to its native constant and back yields the
/// same variant, and translating any known native constant to its variant
/// and back yields the same constant.
#[verifier::rlimit(30)]
pub proof fn lemma_composite_operator_round_trip(v: CompositeOperator, u: u32)
    ensures
        CompositeOperator::spec_from_native(v.spec_to_native()) == v,
        CompositeOperator::spec_from_native(u) != CompositeOperator::Unknown ==> CompositeOperator::spec_from_native(u).spec_to_native() == u,
{
}

/// Selects the type of noise to add to an image.
///
/// <http://www.graphicsmagick.org/api/types.html#noisetype>
#[derive(Debug, Clone, Copy, PartialEq, Eq, Structural)]
pub enum NoiseType {
    UniformNoise,
    GaussianNoise,
    MultiplicativeGaussianNoise,
    ImpulseNoise,
    LaplacianNoise,
    PoissonNoise,
    RandomNoise,
    UndefinedNoise,
    /// Stands for any native value outside the known constants.
    Unknown,
}

impl NoiseType {
    /// The native integer constant this variant stands for.
    pub open spec fn spec_to_native(self) -> u32 {
        match self {
            NoiseType::UniformNoise => 0,
            NoiseType::GaussianNoise => 1,
            NoiseType::MultiplicativeGaussianNoise => 2,
            NoiseType::ImpulseNoise => 3,
            NoiseType::LaplacianNoise => 4,
            NoiseType::PoissonNoise => 5,
            NoiseType::RandomNoise => 6,
            NoiseType::UndefinedNoise => 7,
            NoiseType::Unknown => u32::MAX,
        }
    }

    /// The variant standing for the native integer `u`; integers outside
    /// the known constants map to the `Unknown` sentinel.
    pub open spec fn spec_from_native(u: u32) -> NoiseType {
        if u == 0 {
            NoiseType::UniformNoise
        } else if u == 1 {
            NoiseType::GaussianNoise
        } else if u == 2 {
            NoiseType::MultiplicativeGaussianNoise
        } else if u == 3 {
            NoiseType::ImpulseNoise
        } else if u == 4 {
            NoiseType::LaplacianNoise
        } else if u == 5 {
            NoiseType::PoissonNoise
        } else if u == 6 {
            NoiseType::RandomNoise
        } else if u == 7 {
            NoiseType::UndefinedNoise
        } else {
            NoiseType::Unknown
        }
    }

    /// Translate this variant to the native integer constant.
    pub fn to_native(self) -> (r: u32)
        ensures
            r == self.spec_to_native(),
    {
        match self {
            NoiseType::UniformNoise => 0,
            NoiseType::GaussianNoise => 1,
            NoiseType::MultiplicativeGaussianNoise => 2,
            NoiseType::ImpulseNoise => 3,
            NoiseType::LaplacianNoise => 4,
            NoiseType::PoissonNoise => 5,
            NoiseType::RandomNoise => 6,
            NoiseType::UndefinedNoise => 7,
            NoiseType::Unknown => u32::MAX,
        }
    }

    /// Translate a native integer constant to the variant standing for
    /// it, with unrecognized values mapping to `Unknown`.
    pub fn from_native(u: u32) -> (r: NoiseType)
        ensures
            r == NoiseType::spec_from_native(u),
    {
        if u == 0 {
            NoiseType::UniformNoise
        } else if u == 1 {
            NoiseType::GaussianNoise
        } else if u == 2 {
            NoiseType::MultiplicativeGaussianNoise
        } else if u == 3 {
            NoiseType::ImpulseNoise
        } else if u == 4 {
            NoiseType::LaplacianNoise
        } else if u == 5 {
            NoiseType::PoissonNoise
        } else if u == 6 {
            NoiseType::RandomNoise
        } else if u == 7 {
            NoiseType::UndefinedNoise
        } else {
            NoiseType::Unknown
        }
    }
}

/// Law: translating any variant to its native constant and back yields the
/// same variant, and translating any known native constant to its variant
/// and back yields the same constant.
pub proof fn lemma_noise_type_round_trip(v: NoiseType, u: u32)
    ensures
        NoiseType::spec_from_native(v.spec_to_native()) == v,
        NoiseType::spec_from_native(u) != NoiseType::Unknown ==> NoiseType::spec_from_native(u).spec_to_native() == u,
{
}

/// Specifies the intended display orientation of an image.
///
/// <http://www.graphicsmagick.org/api/types.html#orientationtype>
#[derive(Debug, Clone, Copy, PartialEq, Eq, Structural)]
pub enum OrientationType {
    UndefinedOrientation,
    TopLeftOrientation,
    TopRightOrientation,
    BottomRightOrientation,
    BottomLeftOrientation,
    LeftTopOrientation,
    RightTopOrientation,
    RightBottomOrientation,
    LeftBottomOrientation,
    /// Stands for any native value outside the known constants.
    Unknown,
}

impl OrientationType {
    /// The native integer constant this variant stands for.
    pub open spec fn spec_to_native(self) -> u32 {
        match self {
            OrientationType::UndefinedOrientation => 0,
            OrientationType::TopLeftOrientation => 1,
            OrientationType::TopRightOrientation => 2,
            OrientationType::BottomRightOrientation => 3,
            OrientationType::BottomLeftOrientation => 4,
            OrientationType::LeftTopOrientation => 5,
            OrientationType::RightTopOrientation => 6,
            OrientationType::RightBottomOrientation => 7,
            OrientationType::LeftBottomOrientation => 8,
            OrientationType::Unknown => u32::MAX,
        }
    }

    /// The variant standing for the native integer `u`; integers outside
    /// the known constants map to the `Unknown` sentinel.
    pub open spec fn spec_from_native(u: u32) -> OrientationType {
        if u == 0 {
            OrientationType::UndefinedOrientation
        } else if u == 1 {
            OrientationType::TopLeftOrientation
        } else if u == 2 {
            OrientationType::TopRightOrientation
        } else if u == 3 {
            OrientationType::BottomRightOrientation
        } else if u == 4 {
            OrientationType::BottomLeftOrientation
        } else if u == 5 {
            OrientationType::LeftTopOrientation
        } else if u == 6 {
            OrientationType::RightTopOrientation
        } else if u == 7 {
            OrientationType::RightBottomOrientation
        } else if u == 8 {
            OrientationType::LeftBottomOrientation
        } else {
            OrientationType::Unknown
        }
    }

    /// Translate this variant to the native integer constant.
    pub fn to_native(self) -> (r: u32)
        ensures
            r == self.spec_to_native(),
    {
        match self {
            OrientationType::UndefinedOrientation => 0,
            OrientationType::TopLeftOrientation => 1,
            OrientationType::TopRightOrientation => 2,
            OrientationType::BottomRightOrientation => 3,
            OrientationType::BottomLeftOrientation => 4,
            OrientationType::LeftTopOrientation => 5,
            OrientationType::RightTopOrientation => 6,
            OrientationType::RightBottomOrientation => 7,
            OrientationType::LeftBottomOrientation => 8,
            OrientationType::Unknown => u32::MAX,
        }
    }

    /// Translate a native integer constant to the variant standing for
    /// it, with unrecognized values mapping to `Unknown`.
    pub fn from_native(u: u32) -> (r: OrientationType)
        ensures
            r == OrientationType::spec_from_native(u),
    {
        if u == 0 {
            OrientationType::UndefinedOrientation
        } else if u == 1 {
            OrientationType::TopLeftOrientation
        } else if u == 2 {
            OrientationType::TopRightOrientation
        } else if u == 3 {
            OrientationType::BottomRightOrientation
        } else if u == 4 {
            OrientationType::BottomLeftOrientation
        } else if u == 5 {
            OrientationType::LeftTopOrientation
        } else if u == 6 {
            OrientationType::RightTopOrientation
        } else if u == 7 {
            OrientationType::RightBottomOrientation
        } else if u == 8 {
            OrientationType::LeftBottomOrientation
        } else {
            OrientationType::Unknown
        }
    }
}

/// Law: translating any variant to its native constant and back yields the
/// same variant, and translating any known native constant to its variant
/// and back yields the same constant.
pub proof fn lemma_orientation_type_round_trip(v: OrientationType, u: u32)
    ensures
        OrientationType::spec_from_native(v.spec_to_native()) == v,
        OrientationType::spec_from_native(u) != OrientationType::Unknown ==> OrientationType::spec_from_native(u).spec_to_native() == u,
{
}

/// Selects the pixel error metric used when two images are compared.
///
/// <http://www.graphicsmagick.org/api/types.html#metrictype>
#[derive(Debug, Clone, Copy, PartialEq, Eq, Structural)]
pub enum MetricType {
    MeanAbsoluteErrorMetric,
    MeanSquaredErrorMetric,
    PeakAbsoluteErrorMetric,
    PeakSignalToNoiseRatioMetric,
    RootMeanSquaredErrorMetric,
    /// Stands for any native value outside the known constants.
    Unknown,
}

impl MetricType {
    /// The native integer constant this variant stands for.
    pub open spec fn spec_to_native(self) -> u32 {
        match self {
            MetricType::MeanAbsoluteErrorMetric => 0,
            MetricType::MeanSquaredErrorMetric => 1,
            MetricType::PeakAbsoluteErrorMetric => 2,
            MetricType::PeakSignalToNoiseRatioMetric => 3,
            MetricType::RootMeanSquaredErrorMetric => 4,
            MetricType::Unknown => u32::MAX,
        }
    }

    /// The variant standing for the native integer `u`; integers outside
    /// the known constants map to the `Unknown` sentinel.
    pub open spec fn spec_from_native(u: u32) -> MetricType {
        if u == 0 {
            MetricType::MeanAbsoluteErrorMetric
        } else if u == 1 {
            MetricType::MeanSquaredErrorMetric
        } else if u == 2 {
            MetricType::PeakAbsoluteErrorMetric
        } else if u == 3 {
            MetricType::PeakSignalToNoiseRatioMetric
        } else if u == 4 {
            MetricType::RootMeanSquaredErrorMetric
        } else {
            MetricType::Unknown
        }
    }

    /// Translate this variant to the native integer constant.
    pub fn to_native(self) -> (r: u32)
        ensures
            r == self.spec_to_native(),
    {
        match self {
            MetricType::MeanAbsoluteErrorMetric => 0,
            MetricType::MeanSquaredErrorMetric => 1,
            MetricType::PeakAbsoluteErrorMetric => 2,
            MetricType::PeakSignalToNoiseRatioMetric => 3,
            MetricType::RootMeanSquaredErrorMetric => 4,
            MetricType::Unknown => u32::MAX,
        }
    }

    /// Translate a native integer constant to the variant standing for
    /// it, with unrecognized values mapping to `Unknown`.
    pub fn from_native(u: u32) -> (r: MetricType)
        ensures
            r == MetricType::spec_from_native(u),
    {
        if u == 0 {
            MetricType::MeanAbsoluteErrorMetric
        } else if u == 1 {
            MetricType::MeanSquaredErrorMetric
        } else if u == 2 {
            MetricType::PeakAbsoluteErrorMetric
        } else if u == 3 {
            MetricType::PeakSignalToNoiseRatioMetric
        } else if u == 4 {
            MetricType::RootMeanSquaredErrorMetric
        } else {
            MetricType::Unknown
        }
    }
}

/// Law: translating any variant to its native constant and back yields the
/// same variant, and translating any known native constant to its variant
/// and back yields the same constant.
pub proof fn lemma_metric_type_round_trip(v: MetricType, u: u32)
    ensures
        MetricType::spec_from_native(v.spec_to_native()) == v,
        MetricType::spec_from_native(u) != MetricType::Unknown ==> MetricType::spec_from_native(u).spec_to_native() == u,
{
}

/// Specifies the colorspace that quantization or encoding works in.
///
/// <http://www.graphicsmagick.org/api/types.html#colorspacetype>
#[derive(Debug, Clone, Copy, PartialEq, Eq, Structural)]
pub enum ColorspaceType {
    UndefinedColorspace,
    RGBColorspace,
    GRAYColorspace,
    TransparentColorspace,
    OHTAColorspace,
    XYZColorspace,
    YCCColorspace,
    YIQColorspace,
    YPbPrColorspace,
    YUVColorspace,
    CMYKColorspace,
    SRGBColorspace,
    HSLColorspace,
    HWBColorspace,
    LABColorspace,
    CineonLogRGBColorspace,
    Rec601LumaColorspace,
    Rec601YCbCrColorspace,
    Rec709LumaColorspace,
    Rec709YCbCrColorspace,
    /// Stands for any native value outside the known constants.
    Unknown,
}

impl ColorspaceType {
    /// The native integer constant this variant stands for.
    pub open spec fn spec_to_native(self) -> u32 {
        match self {
            ColorspaceType::UndefinedColorspace => 0,
            ColorspaceType::RGBColorspace => 1,
            ColorspaceType::GRAYColorspace => 2,
            ColorspaceType::TransparentColorspace => 3,
            ColorspaceType::OHTAColorspace => 4,
            ColorspaceType::XYZColorspace => 5,
            ColorspaceType::YCCColorspace => 6,
            ColorspaceType::YIQColorspace => 7,
            ColorspaceType::YPbPrColorspace => 8,
            ColorspaceType::YUVColorspace => 9,
            ColorspaceType::CMYKColorspace => 10,
            ColorspaceType::SRGBColorspace => 11,
            ColorspaceType::HSLColorspace => 12,
            ColorspaceType::HWBColorspace => 13,
            ColorspaceType::LABColorspace => 14,
            ColorspaceType::CineonLogRGBColorspace => 15,
            ColorspaceType::Rec601LumaColorspace => 16,
            ColorspaceType::Rec601YCbCrColorspace => 17,
            ColorspaceType::Rec709LumaColorspace => 18,
            ColorspaceType::Rec709YCbCrColorspace => 19,
            ColorspaceType::Unknown => u32::MAX,
        }
    }

    /// The variant standing for the native integer `u`; integers outside
    /// the known constants map to the `Unknown` sentinel.
    pub open spec fn spec_from_native(u: u32) -> ColorspaceType {
        if u == 0 {
            ColorspaceType::UndefinedColorspace
        } else if u == 1 {
            ColorspaceType::RGBColorspace
        } else if u == 2 {
            ColorspaceType::GRAYColorspace
        } else if u == 3 {
            ColorspaceType::TransparentColorspace
        } else if u == 4 {
            ColorspaceType::OHTAColorspace
        } else if u == 5 {
            ColorspaceType::XYZColorspace
        } else if u == 6 {
            ColorspaceType::YCCColorspace
        } else if u == 7 {
            ColorspaceType::YIQColorspace
        } else if u == 8 {
            ColorspaceType::YPbPrColorspace
        } else if u == 9 {
            ColorspaceType::YUVColorspace
        } else if u == 10 {
            ColorspaceType::CMYKColorspace
        } else if u == 11 {
            ColorspaceType::SRGBColorspace
        } else if u == 12 {
            ColorspaceType::HSLColorspace
        } else if u == 13 {
            ColorspaceType::HWBColorspace
        } else if u == 14 {
            ColorspaceType::LABColorspace
        } else if u == 15 {
            ColorspaceType::CineonLogRGBColorspace
        } else if u == 16 {
            ColorspaceType::Rec601LumaColorspace
        } else if u == 17 {
            ColorspaceType::Rec601YCbCrColorspace
        } else if u == 18 {
            ColorspaceType::Rec709LumaColorspace
        } else if u == 19 {
            ColorspaceType::Rec709YCbCrColorspace
        } else {
            ColorspaceType::Unknown
        }
    }

    /// Translate this variant to the native integer constant.
    pub fn to_native(self) -> (r: u32)
        ensures
            r == self.spec_to_native(),
    {
        match self {
            ColorspaceType::UndefinedColorspace => 0,
            ColorspaceType::RGBColorspace => 1,
            ColorspaceType::GRAYColorspace => 2,
            ColorspaceType::TransparentColorspace => 3,
            ColorspaceType::OHTAColorspace => 4,
            ColorspaceType::XYZColorspace => 5,
            ColorspaceType::YCCColorspace => 6,
            ColorspaceType::YIQColorspace => 7,
            ColorspaceType::YPbPrColorspace => 8,
            ColorspaceType::YUVColorspace => 9,
            ColorspaceType::CMYKColorspace => 10,
            ColorspaceType::SRGBColorspace => 11,
            ColorspaceType::HSLColorspace => 12,
            ColorspaceType::HWBColorspace => 13,
            ColorspaceType::LABColorspace => 14,
            ColorspaceType::CineonLogRGBColorspace => 15,
            ColorspaceType::Rec601LumaColorspace => 16,
            ColorspaceType::Rec601YCbCrColorspace => 17,
            ColorspaceType::Rec709LumaColorspace => 18,
            ColorspaceType::Rec709YCbCrColorspace => 19,
            ColorspaceType::Unknown => u32::MAX,
        }
    }

    /// Translate a native integer constant to the variant standing for
    /// it, with unrecognized values mapping to `Unknown`.
    pub fn from_native(u: u32) -> (r: ColorspaceType)
        ensures
            r == ColorspaceType::spec_from_native(u),
    {
        if u == 0 {
            ColorspaceType::UndefinedColorspace
        } else if u == 1 {
            ColorspaceType::RGBColorspace
        } else if u == 2 {
            ColorspaceType::GRAYColorspace
        } else if u == 3 {
            ColorspaceType::TransparentColorspace
        } else if u == 4 {
            ColorspaceType::OHTAColorspace
        } else if u == 5 {
            ColorspaceType::XYZColorspace
        } else if u == 6 {
            ColorspaceType::YCCColorspace
        } else if u == 7 {
            ColorspaceType::YIQColorspace
        } else if u == 8 {
            ColorspaceType::YPbPrColorspace
        } else if u == 9 {
            ColorspaceType::YUVColorspace
        } else if u == 10 {
            ColorspaceType::CMYKColorspace
        } else if u == 11 {
            ColorspaceType::SRGBColorspace
        } else if u == 12 {
            ColorspaceType::HSLColorspace
        } else if u == 13 {
            ColorspaceType::HWBColorspace
        } else if u == 14 {
            ColorspaceType::LABColorspace
        } else if u == 15 {
            ColorspaceType::CineonLogRGBColorspace
        } else if u == 16 {
            ColorspaceType::Rec601LumaColorspace
        } else if u == 17 {
            ColorspaceType::Rec601YCbCrColorspace
        } else if u == 18 {
            ColorspaceType::Rec709LumaColorspace
        } else if u == 19 {
            ColorspaceType::Rec709YCbCrColorspace
        } else {
            ColorspaceType::Unknown
        }
    }
}

/// Law: translating any variant to its native constant and back yields the
/// same variant, and translating any known native constant to its variant
/// and back yields the same constant.
pub proof fn lemma_colorspace_type_round_trip(v: ColorspaceType, u: u32)
    ensures
        ColorspaceType::spec_from_native(v.spec_to_native()) == v,
        ColorspaceType::spec_from_native(u) != ColorspaceType::Unknown ==> ColorspaceType::spec_from_native(u).spec_to_native() == u,
{
}

/// Expresses the desired compression when encoding an image.
///
/// <http://www.graphicsmagick.org/api/types.html#compressiontype>
#[derive(Debug, Clone, Copy, PartialEq, Eq, Structural)]
pub enum CompressionType {
    UndefinedCompression,
    NoCompression,
    BZipCompression,
    FaxCompression,
    Group4Compression,
    JPEGCompression,
    LosslessJPEGCompression,
    LZWCompression,
    RLECompression,
    ZipCompression,
    LZMACompression,
    JPEG2000Compression,
    JBIG1Compression,
    /// Stands for any native value outside the known constants.
    Unknown,
}

impl CompressionType {
    /// The native integer constant this variant stands for.
    pub open spec fn spec_to_native(self) -> u32 {
        match self {
            CompressionType::UndefinedCompression => 0,
            CompressionType::NoCompression => 1,
            CompressionType::BZipCompression => 2,
            CompressionType::FaxCompression => 3,
            CompressionType::Group4Compression => 4,
            CompressionType::JPEGCompression => 5,
            CompressionType::LosslessJPEGCompression => 6,
            CompressionType::LZWCompression => 7,
            CompressionType::RLECompression => 8,
            CompressionType::ZipCompression => 9,
            CompressionType::LZMACompression => 10,
            CompressionType::JPEG2000Compression => 11,
            CompressionType::JBIG1Compression => 12,
            CompressionType::Unknown => u32::MAX,
        }
    }

    /// The variant standing for the native integer `u`; integers outside
    /// the known constants map to the `Unknown` sentinel.
    pub open spec fn spec_from_native(u: u32) -> CompressionType {
        if u == 0 {
            CompressionType::UndefinedCompression
        } else if u == 1 {
            CompressionType::NoCompression
        } else if u == 2 {
            CompressionType::BZipCompression
        } else if u == 3 {
            CompressionType::FaxCompression
        } else if u == 4 {
            CompressionType::Group4Compression
        } else if u == 5 {
            CompressionType::JPEGCompression
        } else if u == 6 {
            CompressionType::LosslessJPEGCompression
        } else if u == 7 {
            CompressionType::LZWCompression
        } else if u == 8 {
            CompressionType::RLECompression
        } else if u == 9 {
            CompressionType::ZipCompression
        } else if u == 10 {
            CompressionType::LZMACompression
        } else if u == 11 {
            CompressionType::JPEG2000Compression
        } else if u == 12 {
            CompressionType::JBIG1Compression
        } else {
            CompressionType::Unknown
        }
    }

    /// Translate this variant to the native integer constant.
    pub fn to_native(self) -> (r: u32)
        ensures
            r == self.spec_to_native(),
    {
        match self {
            CompressionType::UndefinedCompression => 0,
            CompressionType::NoCompression => 1,
            CompressionType::BZipCompression => 2,
            CompressionType::FaxCompression => 3,
            CompressionType::Group4Compression => 4,
            CompressionType::JPEGCompression => 5,
            CompressionType::LosslessJPEGCompression => 6,
            CompressionType::LZWCompression => 7,
            CompressionType::RLECompression => 8,
            CompressionType::ZipCompression => 9,
            CompressionType::LZMACompression => 10,
            CompressionType::JPEG2000Compression => 11,
            CompressionType::JBIG1Compression => 12,
            CompressionType::Unknown => u32::MAX,
        }
    }

    /// Translate a native integer constant to the variant standing for
    /// it, with unrecognized values mapping to `Unknown`.
    pub fn from_native(u: u32) -> (r: CompressionType)
        ensures
            r == CompressionType::spec_from_native(u),
    {
        if u == 0 {
            CompressionType::UndefinedCompression
        } else if u == 1 {
            CompressionType::NoCompression
        } else if u == 2 {
            CompressionType::BZipCompression
        } else if u == 3 {
            CompressionType::FaxCompression
        } else if u == 4 {
            CompressionType::Group4Compression
        } else if u == 5 {
            CompressionType::JPEGCompression
        } else if u == 6 {
            CompressionType::LosslessJPEGCompression
        } else if u == 7 {
            CompressionType::LZWCompression
        } else if u == 8 {
            CompressionType::RLECompression
        } else if u == 9 {
            CompressionType::ZipCompression
        } else if u == 10 {
            CompressionType::LZMACompression
        } else if u == 11 {
            CompressionType::JPEG2000Compression
        } else if u == 12 {
            CompressionType::JBIG1Compression
        } else {
            CompressionType::Unknown
        }
    }
}

/// Law: translating any variant to its native constant and back yields the
/// same variant, and translating any known native constant to its variant
/// and back yields the same constant.
pub proof fn lemma_compression_type_round_trip(v: CompressionType, u: u32)
    ensures
        CompressionType::spec_from_native(v.spec_to_native()) == v,
        CompressionType::spec_from_native(u) != CompressionType::Unknown ==> CompressionType::spec_from_native(u).spec_to_native() == u,
{
}

/// Specifies how a frame of an image sequence is disposed of.
///
/// <http://www.graphicsmagick.org/api/types.html#disposetype>
#[derive(Debug, Clone, Copy, PartialEq, Eq, Structural)]
pub enum DisposeType {
    UndefinedDispose,
    NoneDispose,
    BackgroundDispose,
    PreviousDispose,
    /// Stands for any native value outside the known constants.
    Unknown,
}

impl DisposeType {
    /// The native integer constant this variant stands for.
    pub open spec fn spec_to_native(self) -> u32 {
        match self {
            DisposeType::UndefinedDispose => 0,
            DisposeType::NoneDispose => 1,
            DisposeType::BackgroundDispose => 2,
            DisposeType::PreviousDispose => 3,
            DisposeType::Unknown => u32::MAX,
        }
    }

    /// The variant standing for the native integer `u`; integers outside
    /// the known constants map to the `Unknown` sentinel.
    pub open spec fn spec_from_native(u: u32) -> DisposeType {
        if u == 0 {
            DisposeType::UndefinedDispose
        } else if u == 1 {
            DisposeType::NoneDispose
        } else if u == 2 {
            DisposeType::BackgroundDispose
        } else if u == 3 {
            DisposeType::PreviousDispose
        } else {
            DisposeType::Unknown
        }
    }

    /// Translate this variant to the native integer constant.
    pub fn to_native(self) -> (r: u32)
        ensures
            r == self.spec_to_native(),
    {
        match self {
            DisposeType::UndefinedDispose => 0,
            DisposeType::NoneDispose => 1,
            DisposeType::BackgroundDispose => 2,
            DisposeType::PreviousDispose => 3,
            DisposeType::Unknown => u32::MAX,
        }
    }

    /// Translate a native integer constant to the variant standing for
    /// it, with unrecognized values mapping to `Unknown`.
    pub fn from_native(u: u32) -> (r: DisposeType)
        ensures
            r == DisposeType::spec_from_native(u),
    {
        if u == 0 {
            DisposeType::UndefinedDispose
        } else if u == 1 {
            DisposeType::NoneDispose
        } else if u == 2 {
            DisposeType::BackgroundDispose
        } else if u == 3 {
            DisposeType::PreviousDispose
        } else {
            DisposeType::Unknown
        }
    }
}

/// Law: translating any variant to its native constant and back yields the
/// same variant, and translating any known native constant to its variant
/// and back yields the same constant.
pub proof fn lemma_dispose_type_round_trip(v: DisposeType, u: u32)
    ensures
        DisposeType::spec_from_native(v.spec_to_native()) == v,
        DisposeType::spec_from_native(u) != DisposeType::Unknown ==> DisposeType::spec_from_native(u).spec_to_native() == u,
{
}

/// Positions an object within a bounding region.
///
/// <http://www.graphicsmagick.org/api/types.html#gravitytype>
#[derive(Debug, Clone, Copy, PartialEq, Eq, Structural)]
pub enum GravityType {
    ForgetGravity,
    NorthWestGravity,
    NorthGravity,
    NorthEastGravity,
    WestGravity,
    CenterGravity,
    EastGravity,
    SouthWestGravity,
    SouthGravity,
    SouthEastGravity,
    StaticGravity,
    /// Stands for any native value outside the known constants.
    Unknown,
}

impl GravityType {
    /// The native integer constant this variant stands for.
    pub open spec fn spec_to_native(self) -> u32 {
        match self {
            GravityType::ForgetGravity => 0,
            GravityType::NorthWestGravity => 1,
            GravityType::NorthGravity => 2,
            GravityType::NorthEastGravity => 3,
            GravityType::WestGravity => 4,
            GravityType::CenterGravity => 5,
            GravityType::EastGravity => 6,
            GravityType::SouthWestGravity => 7,
            GravityType::SouthGravity => 8,
            GravityType::SouthEastGravity => 9,
            GravityType::StaticGravity => 10,
            GravityType::Unknown => u32::MAX,
        }
    }

    /// The variant standing for the native integer `u`; integers outside
    /// the known constants map to the `Unknown` sentinel.
    pub open spec fn spec_from_native(u: u32) -> GravityType {
        if u == 0 {
            GravityType::ForgetGravity
        } else if u == 1 {
            GravityType::NorthWestGravity
        } else if u == 2 {
            GravityType::NorthGravity
        } else if u == 3 {
            GravityType::NorthEastGravity
        } else if u == 4 {
            GravityType::WestGravity
        } else if u == 5 {
            GravityType::CenterGravity
        } else if u == 6 {
            GravityType::EastGravity
        } else if u == 7 {
            GravityType::SouthWestGravity
        } else if u == 8 {
            GravityType::SouthGravity
        } else if u == 9 {
            GravityType::SouthEastGravity
        } else if u == 10 {
            GravityType::StaticGravity
        } else {
            GravityType::Unknown
        }
    }

    /// Translate this variant to the native integer constant.
    pub fn to_native(self) -> (r: u32)
        ensures
            r == self.spec_to_native(),
    {
        match self {
            GravityType::ForgetGravity => 0,
            GravityType::NorthWestGravity => 1,
            GravityType::NorthGravity => 2,
            GravityType::NorthEastGravity => 3,
            GravityType::WestGravity => 4,
            GravityType::CenterGravity => 5,
            GravityType::EastGravity => 6,
            GravityType::SouthWestGravity => 7,
            GravityType::SouthGravity => 8,
            GravityType::SouthEastGravity => 9,
            GravityType::StaticGravity => 10,
            GravityType::Unknown => u32::MAX,
        }
    }

    /// Translate a native integer constant to the variant standing for
    /// it, with unrecognized values mapping to `Unknown`.
    pub fn from_native(u: u32) -> (r: GravityType)
        ensures
            r == GravityType::spec_from_native(u),
    {
        if u == 0 {
            GravityType::ForgetGravity
        } else if u == 1 {
            GravityType::NorthWestGravity
        } else if u == 2 {
            GravityType::NorthGravity
        } else if u == 3 {
            GravityType::NorthEastGravity
        } else if u == 4 {
            GravityType::WestGravity
        } else if u == 5 {
            GravityType::CenterGravity
        } else if u == 6 {
            GravityType::EastGravity
        } else if u == 7 {
            GravityType::SouthWestGravity
        } else if u == 8 {
            GravityType::SouthGravity
        } else if u == 9 {
            GravityType::SouthEastGravity
        } else if u == 10 {
            GravityType::StaticGravity
        } else {
            GravityType::Unknown
        }
    }
}

/// Law: translating any variant to its native constant and back yields the
/// same variant, and translating any known native constant to its variant
/// and back yields the same constant.
pub proof fn lemma_gravity_type_round_trip(v: GravityType, u: u32)
    ensures
        GravityType::spec_from_native(v.spec_to_native()) == v,
        GravityType::spec_from_native(u) != GravityType::Unknown ==> GravityType::spec_from_native(u).spec_to_native() == u,
{
}

/// Specifies the ordering of the red, green and blue pixel information.
///
/// <http://www.graphicsmagick.org/api/types.html#interlacetype>
#[derive(Debug, Clone, Copy, PartialEq, Eq, Structural)]
pub enum InterlaceType {
    UndefinedInterlace,
    NoInterlace,
    LineInterlace,
    PlaneInterlace,
    PartitionInterlace,
    /// Stands for any native value outside the known constants.
    Unknown,
}

impl InterlaceType {
    /// The native integer constant this variant stands for.
    pub open spec fn spec_to_native(self) -> u32 {
        match self {
            InterlaceType::UndefinedInterlace => 0,
            InterlaceType::NoInterlace => 1,
            InterlaceType::LineInterlace => 2,
            InterlaceType::PlaneInterlace => 3,
            InterlaceType::PartitionInterlace => 4,
            InterlaceType::Unknown => u32::MAX,
        }
    }

    /// The variant standing for the native integer `u`; integers outside
    /// the known constants map to the `Unknown` sentinel.
    pub open spec fn spec_from_native(u: u32) -> InterlaceType {
        if u == 0 {
            InterlaceType::UndefinedInterlace
        } else if u == 1 {
            InterlaceType::NoInterlace
        } else if u == 2 {
            InterlaceType::LineInterlace
        } else if u == 3 {
            InterlaceType::PlaneInterlace
        } else if u == 4 {
            InterlaceType::PartitionInterlace
        } else {
            InterlaceType::Unknown
        }
    }

    /// Translate this variant to the native integer constant.
    pub fn to_native(self) -> (r: u32)
        ensures
            r == self.spec_to_native(),
    {
        match self {
            InterlaceType::UndefinedInterlace => 0,
            InterlaceType::NoInterlace => 1,
            InterlaceType::LineInterlace => 2,
            InterlaceType::PlaneInterlace => 3,
            InterlaceType::PartitionInterlace => 4,
            InterlaceType::Unknown => u32::MAX,
        }
    }

    /// Translate a native integer constant to the variant standing for
    /// it, with unrecognized values mapping to `Unknown`.
    pub fn from_native(u: u32) -> (r: InterlaceType)
        ensures
            r == InterlaceType::spec_from_native(u),
    {
        if u == 0 {
            InterlaceType::UndefinedInterlace
        } else if u == 1 {
            InterlaceType::NoInterlace
        } else if u == 2 {
            InterlaceType::LineInterlace
        } else if u == 3 {
            InterlaceType::PlaneInterlace
        } else if u == 4 {
            InterlaceType::PartitionInterlace
        } else {
            InterlaceType::Unknown
        }
    }
}

/// Law: translating any variant to its native constant and back yields the
/// same variant, and translating any known native constant to its variant
/// and back yields the same constant.
pub proof fn lemma_interlace_type_round_trip(v: InterlaceType, u: u32)
    ensures
        InterlaceType::spec_from_native(v.spec_to_native()) == v,
        InterlaceType::spec_from_native(u) != InterlaceType::Unknown ==> InterlaceType::spec_from_native(u).spec_to_native() == u,
{
}

/// Specifies the C datatype that pixel data is imported from or exported to.
///
/// <http://www.graphicsmagick.org/api/types.html#storagetype>
#[derive(Debug, Clone, Copy, PartialEq, Eq, Structural)]
pub enum StorageType {
    CharPixel,
    ShortPixel,
    IntegerPixel,
    LongPixel,
    FloatPixel,
    DoublePixel,
    /// Stands for any native value outside the known constants.
    Unknown,
}

impl StorageType {
    /// The native integer constant this variant stands for.
    pub open spec fn spec_to_native(self) -> u32 {
        match self {
            StorageType::CharPixel => 0,
            StorageType::ShortPixel => 1,
            StorageType::IntegerPixel => 2,
            StorageType::LongPixel => 3,
            StorageType::FloatPixel => 4,
            StorageType::DoublePixel => 5,
            StorageType::Unknown => u32::MAX,
        }
    }

    /// The variant standing for the native integer `u`; integers outside
    /// the known constants map to the `Unknown` sentinel.
    pub open spec fn spec_from_native(u: u32) -> StorageType {
        if u == 0 {
            StorageType::CharPixel
        } else if u == 1 {
            StorageType::ShortPixel
        } else if u == 2 {
            StorageType::IntegerPixel
        } else if u == 3 {
            StorageType::LongPixel
        } else if u == 4 {
            StorageType::FloatPixel
        } else if u == 5 {
            StorageType::DoublePixel
        } else {
            StorageType::Unknown
        }
    }

    /// Translate this variant to the native integer constant.
    pub fn to_native(self) -> (r: u32)
        ensures
            r == self.spec_to_native(),
    {
        match self {
            StorageType::CharPixel => 0,
            StorageType::ShortPixel => 1,
            StorageType::IntegerPixel => 2,
            StorageType::LongPixel => 3,
            StorageType::FloatPixel => 4,
            StorageType::DoublePixel => 5,
            StorageType::Unknown => u32::MAX,
        }
    }

    /// Translate a native integer constant to the variant standing for
    /// it, with unrecognized values mapping to `Unknown`.
    pub fn from_native(u: u32) -> (r: StorageType)
        ensures
            r == StorageType::spec_from_native(u),
    {
        if u == 0 {
            StorageType::CharPixel
        } else if u == 1 {
            StorageType::ShortPixel
        } else if u == 2 {
            StorageType::IntegerPixel
        } else if u == 3 {
            StorageType::LongPixel
        } else if u == 4 {
            StorageType::FloatPixel
        } else if u == 5 {
            StorageType::DoublePixel
        } else {
            StorageType::Unknown
        }
    }
}

/// Law: translating any variant to its native constant and back yields the
/// same variant, and translating any known native constant to its variant
/// and back yields the same constant.
pub proof fn lemma_storage_type_round_trip(v: StorageType, u: u32)
    ensures
        StorageType::spec_from_native(v.spec_to_native()) == v,
        StorageType::spec_from_native(u) != StorageType::Unknown ==> StorageType::spec_from_native(u).spec_to_native() == u,
{
}

/// Specifies the ICC rendering intent used with color profiles.
///
/// <http://www.graphicsmagick.org/api/types.html#renderingintent>
#[derive(Debug, Clone, Copy, PartialEq, Eq, Structural)]
pub enum RenderingIntent {
    UndefinedIntent,
    SaturationIntent,
    PerceptualIntent,
    AbsoluteIntent,
    RelativeIntent,
    /// Stands for any native value outside the known constants.
    Unknown,
}

impl RenderingIntent {
    /// The native integer constant this variant stands for.
    pub open spec fn spec_to_native(self) -> u32 {
        match self {
            RenderingIntent::UndefinedIntent => 0,
            RenderingIntent::SaturationIntent => 1,
            RenderingIntent::PerceptualIntent => 2,
            RenderingIntent::AbsoluteIntent => 3,
            RenderingIntent::RelativeIntent => 4,
            RenderingIntent::Unknown => u32::MAX,
        }
    }

    /// The variant standing for the native integer `u`; integers outside
    /// the known constants map to the `Unknown` sentinel.
    pub open spec fn spec_from_native(u: u32) -> RenderingIntent {
        if u == 0 {
            RenderingIntent::UndefinedIntent
        } else if u == 1 {
            RenderingIntent::SaturationIntent
        } else if u == 2 {
            RenderingIntent::PerceptualIntent
        } else if u == 3 {
            RenderingIntent::AbsoluteIntent
        } else if u == 4 {
            RenderingIntent::RelativeIntent
        } else {
            RenderingIntent::Unknown
        }
    }

    /// Translate this variant to the native integer constant.
    pub fn to_native(self) -> (r: u32)
        ensures
            r == self.spec_to_native(),
    {
        match self {
            RenderingIntent::UndefinedIntent => 0,
            RenderingIntent::SaturationIntent => 1,
            RenderingIntent::PerceptualIntent => 2,
            RenderingIntent::AbsoluteIntent => 3,
            RenderingIntent::RelativeIntent => 4,
            RenderingIntent::Unknown => u32::MAX,
        }
    }

    /// Translate a native integer constant to the variant standing for
    /// it, with unrecognized values mapping to `Unknown`.
    pub fn from_native(u: u32) -> (r: RenderingIntent)
        ensures
            r == RenderingIntent::spec_from_native(u),
    {
        if u == 0 {
            RenderingIntent::UndefinedIntent
        } else if u == 1 {
            RenderingIntent::SaturationIntent
        } else if u == 2 {
            RenderingIntent::PerceptualIntent
        } else if u == 3 {
            RenderingIntent::AbsoluteIntent
        } else if u == 4 {
            RenderingIntent::RelativeIntent
        } else {
            RenderingIntent::Unknown
        }
    }
}

/// Law: translating any variant to its native constant and back yields the
/// same variant, and translating any known native constant to its variant
/// and back yields the same constant.
pub proof fn lemma_rendering_intent_round_trip(v: RenderingIntent, u: u32)
    ensures
        RenderingIntent::spec_from_native(v.spec_to_native()) == v,
        RenderingIntent::spec_from_native(u) != RenderingIntent::Unknown ==> RenderingIntent::spec_from_native(u).spec_to_native() == u,
{
}

/// The type classification of an image.
///
/// <http://www.graphicsmagick.org/api/types.html#imagetype>
#[derive(Debug, Clone, Copy, PartialEq, Eq, Structural)]
pub enum ImageType {
    UndefinedType,
    BilevelType,
    GrayscaleType,
    GrayscaleMatteType,
    PaletteType,
    PaletteMatteType,
    TrueColorType,
    TrueColorMatteType,
    ColorSeparationType,
    ColorSeparationMatteType,
    OptimizeType,
    /// Stands for any native value outside the known constants.
    Unknown,
}

impl ImageType {
    /// The native integer constant this variant stands for.
    pub open spec fn spec_to_native(self) -> u32 {
        match self {
            ImageType::UndefinedType => 0,
            ImageType::BilevelType => 1,
            ImageType::GrayscaleType => 2,
            ImageType::GrayscaleMatteType => 3,
            ImageType::PaletteType => 4,
            ImageType::PaletteMatteType => 5,
            ImageType::TrueColorType => 6,
            ImageType::TrueColorMatteType => 7,
            ImageType::ColorSeparationType => 8,
            ImageType::ColorSeparationMatteType => 9,
            ImageType::OptimizeType => 10,
            ImageType::Unknown => u32::MAX,
        }
    }

    /// The variant standing for the native integer `u`; integers outside
    /// the known constants map to the `Unknown` sentinel.
    pub open spec fn spec_from_native(u: u32) -> ImageType {
        if u == 0 {
            ImageType::UndefinedType
        } else if u == 1 {
            ImageType::BilevelType
        } else if u == 2 {
            ImageType::GrayscaleType
        } else if u == 3 {
            ImageType::GrayscaleMatteType
        } else if u == 4 {
            ImageType::PaletteType
        } else if u == 5 {
            ImageType::PaletteMatteType
        } else if u == 6 {
            ImageType::TrueColorType
        } else if u == 7 {
            ImageType::TrueColorMatteType
        } else if u == 8 {
            ImageType::ColorSeparationType
        } else if u == 9 {
            ImageType::ColorSeparationMatteType
        } else if u == 10 {
            ImageType::OptimizeType
        } else {
            ImageType::Unknown
        }
    }

    /// Translate this variant to the native integer constant.
    pub fn to_native(self) -> (r: u32)
        ensures
            r == self.spec_to_native(),
    {
        match self {
            ImageType::UndefinedType => 0,
            ImageType::BilevelType => 1,
            ImageType::GrayscaleType => 2,
            ImageType::GrayscaleMatteType => 3,
            ImageType::PaletteType => 4,
            ImageType::PaletteMatteType => 5,
            ImageType::TrueColorType => 6,
            ImageType::TrueColorMatteType => 7,
            ImageType::ColorSeparationType => 8,
            ImageType::ColorSeparationMatteType => 9,
            ImageType::OptimizeType => 10,
            ImageType::Unknown => u32::MAX,
        }
    }

    /// Translate a native integer constant to the variant standing for
    /// it, with unrecognized values mapping to `Unknown`.
    pub fn from_native(u: u32) -> (r: ImageType)
        ensures
            r == ImageType::spec_from_native(u),
    {
        if u == 0 {
            ImageType::UndefinedType
        } else if u == 1 {
            ImageType::BilevelType
        } else if u == 2 {
            ImageType::GrayscaleType
        } else if u == 3 {
            ImageType::GrayscaleMatteType
        } else if u == 4 {
            ImageType::PaletteType
        } else if u == 5 {
            ImageType::PaletteMatteType
        } else if u == 6 {
            ImageType::TrueColorType
        } else if u == 7 {
            ImageType::TrueColorMatteType
        } else if u == 8 {
            ImageType::ColorSeparationType
        } else if u == 9 {
            ImageType::ColorSeparationMatteType
        } else if u == 10 {
            ImageType::OptimizeType
        } else {
            ImageType::Unknown
        }
    }
}

/// Law: translating any variant to its native constant and back yields the
/// same variant, and translating any known native constant to its variant
/// and back yields the same constant.
pub proof fn lemma_image_type_round_trip(v: ImageType, u: u32)
    ensures
        ImageType::spec_from_native(v.spec_to_native()) == v,
        ImageType::spec_from_native(u) != ImageType::Unknown ==> ImageType::spec_from_native(u).spec_to_native() == u,
{
}

/// Specifies the units that image resolutions are given in.
///
/// <http://www.graphicsmagick.org/api/types.html#resolutiontype>
#[derive(Debug, Clone, Copy, PartialEq, Eq, Structural)]
pub enum ResolutionType {
    UndefinedResolution,
    PixelsPerInchResolution,
    PixelsPerCentimeterResolution,
    /// Stands for any native value outside the known constants.
    Unknown,
}

impl ResolutionType {
    /// The native integer constant this variant stands for.
    pub open spec fn spec_to_native(self) -> u32 {
        match self {
            ResolutionType::UndefinedResolution => 0,
            ResolutionType::PixelsPerInchResolution => 1,
            ResolutionType::PixelsPerCentimeterResolution => 2,
            ResolutionType::Unknown => u32::MAX,
        }
    }

    /// The variant standing for the native integer `u`; integers outside
    /// the known constants map to the `Unknown` sentinel.
    pub open spec fn spec_from_native(u: u32) -> ResolutionType {
        if u == 0 {
            ResolutionType::UndefinedResolution
        } else if u == 1 {
            ResolutionType::PixelsPerInchResolution
        } else if u == 2 {
            ResolutionType::PixelsPerCentimeterResolution
        } else {
            ResolutionType::Unknown
        }
    }

    /// Translate this variant to the native integer constant.
    pub fn to_native(self) -> (r: u32)
        ensures
            r == self.spec_to_native(),
    {
        match self {
            ResolutionType::UndefinedResolution => 0,
            ResolutionType::PixelsPerInchResolution => 1,
            ResolutionType::PixelsPerCentimeterResolution => 2,
            ResolutionType::Unknown => u32::MAX,
        }
    }

    /// Translate a native integer constant to the variant standing for
    /// it, with unrecognized values mapping to `Unknown`.
    pub fn from_native(u: u32) -> (r: ResolutionType)
        ensures
            r == ResolutionType::spec_from_native(u),
    {
        if u == 0 {
            ResolutionType::UndefinedResolution
        } else if u == 1 {
            ResolutionType::PixelsPerInchResolution
        } else if u == 2 {
            ResolutionType::PixelsPerCentimeterResolution
        } else {
            ResolutionType::Unknown
        }
    }
}

/// Law: translating any variant to its native constant and back yields the
/// same variant, and translating any known native constant to its variant
/// and back yields the same constant.
pub proof fn lemma_resolution_type_round_trip(v: ResolutionType, u: u32)
    ensures
        ResolutionType::spec_from_native(v.spec_to_native()) == v,
        ResolutionType::spec_from_native(u) != ResolutionType::Unknown ==> ResolutionType::spec_from_native(u).spec_to_native() == u,
{
}

/// Specifies the color of pixels addressed outside the image bounds.
///
/// <http://www.graphicsmagick.org/api/types.html#virtualpixelmethod>
#[derive(Debug, Clone, Copy, PartialEq, Eq, Structural)]
pub enum VirtualPixelMethod {
    UndefinedVirtualPixelMethod,
    ConstantVirtualPixelMethod,
    EdgeVirtualPixelMethod,
    MirrorVirtualPixelMethod,
    TileVirtualPixelMethod,
    /// Stands for any native value outside the known constants.
    Unknown,
}

impl VirtualPixelMethod {
    /// The native integer constant this variant stands for.
    pub open spec fn spec_to_native(self) -> u32 {
        match self {
            VirtualPixelMethod::UndefinedVirtualPixelMethod => 0,
            VirtualPixelMethod::ConstantVirtualPixelMethod => 1,
            VirtualPixelMethod::EdgeVirtualPixelMethod => 2,
            VirtualPixelMethod::MirrorVirtualPixelMethod => 3,
            VirtualPixelMethod::TileVirtualPixelMethod => 4,
            VirtualPixelMethod::Unknown => u32::MAX,
        }
    }

    /// The variant standing for the native integer `u`; integers outside
    /// the known constants map to the `Unknown` sentinel.
    pub open spec fn spec_from_native(u: u32) -> VirtualPixelMethod {
        if u == 0 {
            VirtualPixelMethod::UndefinedVirtualPixelMethod
        } else if u == 1 {
            VirtualPixelMethod::ConstantVirtualPixelMethod
        } else if u == 2 {
            VirtualPixelMethod::EdgeVirtualPixelMethod
        } else if u == 3 {
            VirtualPixelMethod::MirrorVirtualPixelMethod
        } else if u == 4 {
            VirtualPixelMethod::TileVirtualPixelMethod
        } else {
            VirtualPixelMethod::Unknown
        }
    }

    /// Translate this variant to the native integer constant.
    pub fn to_native(self) -> (r: u32)
        ensures
            r == self.spec_to_native(),
    {
        match self {
            VirtualPixelMethod::UndefinedVirtualPixelMethod => 0,
            VirtualPixelMethod::ConstantVirtualPixelMethod => 1,
            VirtualPixelMethod::EdgeVirtualPixelMethod => 2,
            VirtualPixelMethod::MirrorVirtualPixelMethod => 3,
            VirtualPixelMethod::TileVirtualPixelMethod => 4,
            VirtualPixelMethod::Unknown => u32::MAX,
        }
    }

    /// Translate a native integer constant to the variant standing for
    /// it, with unrecognized values mapping to `Unknown`.
    pub fn from_native(u: u32) -> (r: VirtualPixelMethod)
        ensures
            r == VirtualPixelMethod::spec_from_native(u),
    {
        if u == 0 {
            VirtualPixelMethod::UndefinedVirtualPixelMethod
        } else if u == 1 {
            VirtualPixelMethod::ConstantVirtualPixelMethod
        } else if u == 2 {
            VirtualPixelMethod::EdgeVirtualPixelMethod
        } else if u == 3 {
            VirtualPixelMethod::MirrorVirtualPixelMethod
        } else if u == 4 {
            VirtualPixelMethod::TileVirtualPixelMethod
        } else {
            VirtualPixelMethod::Unknown
        }
    }
}

/// Law: translating any variant to its native constant and back yields the
/// same variant, and translating any known native constant to its variant
/// and back yields the same constant.
pub proof fn lemma_virtual_pixel_method_round_trip(v: VirtualPixelMethod, u: u32)
    ensures
        VirtualPixelMethod::spec_from_native(v.spec_to_native()) == v,
        VirtualPixelMethod::spec_from_native(u) != VirtualPixelMethod::Unknown ==> VirtualPixelMethod::spec_from_native(u).spec_to_native() == u,
{
}

/// Names a limited resource of the native library.
///
/// <http://www.graphicsmagick.org/api/types.html#resourcetype>
#[derive(Debug, Clone, Copy, PartialEq, Eq, Structural)]
pub enum ResourceType {
    UndefinedResource,
    DiskResource,
    FileResource,
    MapResource,
    MemoryResource,
    PixelsResource,
    ThreadsResource,
    WidthResource,
    HeightResource,
    /// Stands for any native value outside the known constants.
    Unknown,
}

impl ResourceType {
    /// The native integer constant this variant stands for.
    pub open spec fn spec_to_native(self) -> u32 {
        match self {
            ResourceType::UndefinedResource => 0,
            ResourceType::DiskResource => 1,
            ResourceType::FileResource => 2,
            ResourceType::MapResource => 3,
            ResourceType::MemoryResource => 4,
            ResourceType::PixelsResource => 5,
            ResourceType::ThreadsResource => 6,
            ResourceType::WidthResource => 7,
            ResourceType::HeightResource => 8,
            ResourceType::Unknown => u32::MAX,
        }
    }

    /// The variant standing for the native integer `u`; integers outside
    /// the known constants map to the `Unknown` sentinel.
    pub open spec fn spec_from_native(u: u32) -> ResourceType {
        if u == 0 {
            ResourceType::UndefinedResource
        } else if u == 1 {
            ResourceType::DiskResource
        } else if u == 2 {
            ResourceType::FileResource
        } else if u == 3 {
            ResourceType::MapResource
        } else if u == 4 {
            ResourceType::MemoryResource
        } else if u == 5 {
            ResourceType::PixelsResource
        } else if u == 6 {
            ResourceType::ThreadsResource
        } else if u == 7 {
            ResourceType::WidthResource
        } else if u == 8 {
            ResourceType::HeightResource
        } else {
            ResourceType::Unknown
        }
    }

    /// Translate this variant to the native integer constant.
    pub fn to_native(self) -> (r: u32)
        ensures
            r == self.spec_to_native(),
    {
        match self {
            ResourceType::UndefinedResource => 0,
            ResourceType::DiskResource => 1,
            ResourceType::FileResource => 2,
            ResourceType::MapResource => 3,
            ResourceType::MemoryResource => 4,
            ResourceType::PixelsResource => 5,
            ResourceType::ThreadsResource => 6,
            ResourceType::WidthResource => 7,
            ResourceType::HeightResource => 8,
            ResourceType::Unknown => u32::MAX,
        }
    }

    /// Translate a native integer constant to the variant standing for
    /// it, with unrecognized values mapping to `Unknown`.
    pub fn from_native(u: u32) -> (r: ResourceType)
        ensures
            r == ResourceType::spec_from_native(u),
    {
        if u == 0 {
            ResourceType::UndefinedResource
        } else if u == 1 {
            ResourceType::DiskResource
        } else if u == 2 {
            ResourceType::FileResource
        } else if u == 3 {
            ResourceType::MapResource
        } else if u == 4 {
            ResourceType::MemoryResource
        } else if u == 5 {
            ResourceType::PixelsResource
        } else if u == 6 {
            ResourceType::ThreadsResource
        } else if u == 7 {
            ResourceType::WidthResource
        } else if u == 8 {
            ResourceType::HeightResource
        } else {
            ResourceType::Unknown
        }
    }
}

/// Law: translating any variant to its native constant and back yields the
/// same variant, and translating any known native constant to its variant
/// and back yields the same constant.
pub proof fn lemma_resource_type_round_trip(v: ResourceType, u: u32)
    ensures
        ResourceType::spec_from_native(v.spec_to_native()) == v,
        ResourceType::spec_from_native(u) != ResourceType::Unknown ==> ResourceType::spec_from_native(u).spec_to_native() == u,
{
}

/// Selects the framing style of a montage.
///
/// <http://www.graphicsmagick.org/api/types.html#montagemode>
#[derive(Debug, Clone, Copy, PartialEq, Eq, Structural)]
pub enum MontageMode {
    UndefinedMode,
    FrameMode,
    UnframeMode,
    ConcatenateMode,
    /// Stands for any native value outside the known constants.
    Unknown,
}

impl MontageMode {
    /// The native integer constant this variant stands for.
    pub open spec fn spec_to_native(self) -> u32 {
        match self {
            MontageMode::UndefinedMode => 0,
            MontageMode::FrameMode => 1,
            MontageMode::UnframeMode => 2,
            MontageMode::ConcatenateMode => 3,
            MontageMode::Unknown => u32::MAX,
        }
    }

    /// The variant standing for the native integer `u`; integers outside
    /// the known constants map to the `Unknown` sentinel.
    pub open spec fn spec_from_native(u: u32) -> MontageMode {
        if u == 0 {
            MontageMode::UndefinedMode
        } else if u == 1 {
            MontageMode::FrameMode
        } else if u == 2 {
            MontageMode::UnframeMode
        } else if u == 3 {
            MontageMode::ConcatenateMode
        } else {
            MontageMode::Unknown
        }
    }

    /// Translate this variant to the native integer constant.
    pub fn to_native(self) -> (r: u32)
        ensures
            r == self.spec_to_native(),
    {
        match self {
            MontageMode::UndefinedMode => 0,
            MontageMode::FrameMode => 1,
            MontageMode::UnframeMode => 2,
            MontageMode::ConcatenateMode => 3,
            MontageMode::Unknown => u32::MAX,
        }
    }

    /// Translate a native integer constant to the variant standing for
    /// it, with unrecognized values mapping to `Unknown`.
    pub fn from_native(u: u32) -> (r: MontageMode)
        ensures
            r == MontageMode::spec_from_native(u),
    {
        if u == 0 {
            MontageMode::UndefinedMode
        } else if u == 1 {
            MontageMode::FrameMode
        } else if u == 2 {
            MontageMode::UnframeMode
        } else if u == 3 {
            MontageMode::ConcatenateMode
        } else {
            MontageMode::Unknown
        }
    }
}

/// Law: translating any variant to its native constant and back yields the
/// same variant, and translating any known native constant to its variant
/// and back yields the same constant.
pub proof fn lemma_montage_mode_round_trip(v: MontageMode, u: u32)
    ensures
        MontageMode::spec_from_native(v.spec_to_native()) == v,
        MontageMode::spec_from_native(u) != MontageMode::Unknown ==> MontageMode::spec_from_native(u).spec_to_native() == u,
{
}

/// Selects the effect that a preview image demonstrates.
///
/// <http://www.graphicsmagick.org/api/types.html#previewtype>
#[derive(Debug, Clone, Copy, PartialEq, Eq, Structural)]
pub enum PreviewType {
    UndefinedPreview,
    RotatePreview,
    ShearPreview,
    RollPreview,
    HuePreview,
    SaturationPreview,
    BrightnessPreview,
    GammaPreview,
    SpiffPreview,
    DullPreview,
    GrayscalePreview,
    QuantizePreview,
    DespecklePreview,
    ReduceNoisePreview,
    AddNoisePreview,
    SharpenPreview,
    BlurPreview,
    ThresholdPreview,
    EdgeDetectPreview,
    SpreadPreview,
    SolarizePreview,
    ShadePreview,
    RaisePreview,
    SegmentPreview,
    SwirlPreview,
    ImplodePreview,
    WavePreview,
    OilPaintPreview,
    CharcoalDrawingPreview,
    JPEGPreview,
    /// Stands for any native value outside the known constants.
    Unknown,
}

impl PreviewType {
    /// The native integer constant this variant stands for.
    pub open spec fn spec_to_native(self) -> u32 {
        match self {
            PreviewType::UndefinedPreview => 0,
            PreviewType::RotatePreview => 1,
            PreviewType::ShearPreview => 2,
            PreviewType::RollPreview => 3,
            PreviewType::HuePreview => 4,
            PreviewType::SaturationPreview => 5,
            PreviewType::BrightnessPreview => 6,
            PreviewType::GammaPreview => 7,
            PreviewType::SpiffPreview => 8,
            PreviewType::DullPreview => 9,
            PreviewType::GrayscalePreview => 10,
            PreviewType::QuantizePreview => 11,
            PreviewType::DespecklePreview => 12,
            PreviewType::ReduceNoisePreview => 13,
            PreviewType::AddNoisePreview => 14,
            PreviewType::SharpenPreview => 15,
            PreviewType::BlurPreview => 16,
            PreviewType::ThresholdPreview => 17,
            PreviewType::EdgeDetectPreview => 18,
            PreviewType::SpreadPreview => 19,
            PreviewType::SolarizePreview => 20,
            PreviewType::ShadePreview => 21,
            PreviewType::RaisePreview => 22,
            PreviewType::SegmentPreview => 23,
            PreviewType::SwirlPreview => 24,
            PreviewType::ImplodePreview => 25,
            PreviewType::WavePreview => 26,
            PreviewType::OilPaintPreview => 27,
            PreviewType::CharcoalDrawingPreview => 28,
            PreviewType::JPEGPreview => 29,
            PreviewType::Unknown => u32::MAX,
        }
    }

    /// The variant standing for the native integer `u`; integers outside
    /// the known constants map to the `Unknown` sentinel.
    pub open spec fn spec_from_native(u: u32) -> PreviewType {
        if u == 0 {
            PreviewType::UndefinedPreview
        } else if u == 1 {
            PreviewType::RotatePreview
        } else if u == 2 {
            PreviewType::ShearPreview
        } else if u == 3 {
            PreviewType::RollPreview
        } else if u == 4 {
            PreviewType::HuePreview
        } else if u == 5 {
            PreviewType::SaturationPreview
        } else if u == 6 {
            PreviewType::BrightnessPreview
        } else if u == 7 {
            PreviewType::GammaPreview
        } else if u == 8 {
            PreviewType::SpiffPreview
        } else if u == 9 {
            PreviewType::DullPreview
        } else if u == 10 {
            PreviewType::GrayscalePreview
        } else if u == 11 {
            PreviewType::QuantizePreview
        } else if u == 12 {
            PreviewType::DespecklePreview
        } else if u == 13 {
            PreviewType::ReduceNoisePreview
        } else if u == 14 {
            PreviewType::AddNoisePreview
        } else if u == 15 {
            PreviewType::SharpenPreview
        } else if u == 16 {
            PreviewType::BlurPreview
        } else if u == 17 {
            PreviewType::ThresholdPreview
        } else if u == 18 {
            PreviewType::EdgeDetectPreview
        } else if u == 19 {
            PreviewType::SpreadPreview
        } else if u == 20 {
            PreviewType::SolarizePreview
        } else if u == 21 {
            PreviewType::ShadePreview
        } else if u == 22 {
            PreviewType::RaisePreview
        } else if u == 23 {
            PreviewType::SegmentPreview
        } else if u == 24 {
            PreviewType::SwirlPreview
        } else if u == 25 {
            PreviewType::ImplodePreview
        } else if u == 26 {
            PreviewType::WavePreview
        } else if u == 27 {
            PreviewType::OilPaintPreview
        } else if u == 28 {
            PreviewType::CharcoalDrawingPreview
        } else if u == 29 {
            PreviewType::JPEGPreview
        } else {
            PreviewType::Unknown
        }
    }

    /// Translate this variant to the native integer constant.
    pub fn to_native(self) -> (r: u32)
        ensures
            r == self.spec_to_native(),
    {
        match self {
            PreviewType::UndefinedPreview => 0,
            PreviewType::RotatePreview => 1,
            PreviewType::ShearPreview => 2,
            PreviewType::RollPreview => 3,
            PreviewType::HuePreview => 4,
            PreviewType::SaturationPreview => 5,
            PreviewType::BrightnessPreview => 6,
            PreviewType::GammaPreview => 7,
            PreviewType::SpiffPreview => 8,
            PreviewType::DullPreview => 9,
            PreviewType::GrayscalePreview => 10,
            PreviewType::QuantizePreview => 11,
            PreviewType::DespecklePreview => 12,
            PreviewType::ReduceNoisePreview => 13,
            PreviewType::AddNoisePreview => 14,
            PreviewType::SharpenPreview => 15,
            PreviewType::BlurPreview => 16,
            PreviewType::ThresholdPreview => 17,
            PreviewType::EdgeDetectPreview => 18,
            PreviewType::SpreadPreview => 19,
            PreviewType::SolarizePreview => 20,
            PreviewType::ShadePreview => 21,
            PreviewType::RaisePreview => 22,
            PreviewType::SegmentPreview => 23,
            PreviewType::SwirlPreview => 24,
            PreviewType::ImplodePreview => 25,
            PreviewType::WavePreview => 26,
            PreviewType::OilPaintPreview => 27,
            PreviewType::CharcoalDrawingPreview => 28,
            PreviewType::JPEGPreview => 29,
            PreviewType::Unknown => u32::MAX,
        }
    }

    /// Translate a native integer constant to the variant standing for
    /// it, with unrecognized values mapping to `Unknown`.
    pub fn from_native(u: u32) -> (r: PreviewType)
        ensures
            r == PreviewType::spec_from_native(u),
    {
        if u == 0 {
            PreviewType::UndefinedPreview
        } else if u == 1 {
            PreviewType::RotatePreview
        } else if u == 2 {
            PreviewType::ShearPreview
        } else if u == 3 {
            PreviewType::RollPreview
        } else if u == 4 {
            PreviewType::HuePreview
        } else if u == 5 {
            PreviewType::SaturationPreview
        } else if u == 6 {
            PreviewType::BrightnessPreview
        } else if u == 7 {
            PreviewType::GammaPreview
        } else if u == 8 {
            PreviewType::SpiffPreview
        } else if u == 9 {
            PreviewType::DullPreview
        } else if u == 10 {
            PreviewType::GrayscalePreview
        } else if u == 11 {
            PreviewType::QuantizePreview
        } else if u == 12 {
            PreviewType::DespecklePreview
        } else if u == 13 {
            PreviewType::ReduceNoisePreview
        } else if u == 14 {
            PreviewType::AddNoisePreview
        } else if u == 15 {
            PreviewType::SharpenPreview
        } else if u == 16 {
            PreviewType::BlurPreview
        } else if u == 17 {
            PreviewType::ThresholdPreview
        } else if u == 18 {
            PreviewType::EdgeDetectPreview
        } else if u == 19 {
            PreviewType::SpreadPreview
        } else if u == 20 {
            PreviewType::SolarizePreview
        } else if u == 21 {
            PreviewType::ShadePreview
        } else if u == 22 {
            PreviewType::RaisePreview
        } else if u == 23 {
            PreviewType::SegmentPreview
        } else if u == 24 {
            PreviewType::SwirlPreview
        } else if u == 25 {
            PreviewType::ImplodePreview
        } else if u == 26 {
            PreviewType::WavePreview
        } else if u == 27 {
            PreviewType::OilPaintPreview
        } else if u == 28 {
            PreviewType::CharcoalDrawingPreview
        } else if u == 29 {
            PreviewType::JPEGPreview
        } else {
            PreviewType::Unknown
        }
    }
}

/// Law: translating any variant to its native constant and back yields the
/// same variant, and translating any known native constant to its variant
/// and back yields the same constant.
#[verifier::rlimit(30)]
pub proof fn lemma_preview_type_round_trip(v: PreviewType, u: u32)
    ensures
        PreviewType::spec_from_native(v.spec_to_native()) == v,
        PreviewType::spec_from_native(u) != PreviewType::Unknown ==> PreviewType::spec_from_native(u).spec_to_native() == u,
{
}

/// Selects the algorithm deciding which parts of a path are inside it.
///
/// <http://www.graphicsmagick.org/api/types.html#fillrule>
#[derive(Debug, Clone, Copy, PartialEq, Eq, Structural)]
pub enum FillRule {
    UndefinedRule,
    EvenOddRule,
    NonZeroRule,
    /// Stands for any native value outside the known constants.
    Unknown,
}

impl FillRule {
    /// The native integer constant this variant stands for.
    pub open spec fn spec_to_native(self) -> u32 {
        match self {
            FillRule::UndefinedRule => 0,
            FillRule::EvenOddRule => 1,
            FillRule::NonZeroRule => 2,
            FillRule::Unknown => u32::MAX,
        }
    }

    /// The variant standing for the native integer `u`; integers outside
    /// the known constants map to the `Unknown` sentinel.
    pub open spec fn spec_from_native(u: u32) -> FillRule {
        if u == 0 {
            FillRule::UndefinedRule
        } else if u == 1 {
            FillRule::EvenOddRule
        } else if u == 2 {
            FillRule::NonZeroRule
        } else {
            FillRule::Unknown
        }
    }

    /// Translate this variant to the native integer constant.
    pub fn to_native(self) -> (r: u32)
        ensures
            r == self.spec_to_native(),
    {
        match self {
            FillRule::UndefinedRule => 0,
            FillRule::EvenOddRule => 1,
            FillRule::NonZeroRule => 2,
            FillRule::Unknown => u32::MAX,
        }
    }

    /// Translate a native integer constant to the variant standing for
    /// it, with unrecognized values mapping to `Unknown`.
    pub fn from_native(u: u32) -> (r: FillRule)
        ensures
            r == FillRule::spec_from_native(u),
    {
        if u == 0 {
            FillRule::UndefinedRule
        } else if u == 1 {
            FillRule::EvenOddRule
        } else if u == 2 {
            FillRule::NonZeroRule
        } else {
            FillRule::Unknown
        }
    }
}

/// Law: translating any variant to its native constant and back yields the
/// same variant, and translating any known native constant to its variant
/// and back yields the same constant.
pub proof fn lemma_fill_rule_round_trip(v: FillRule, u: u32)
    ensures
        FillRule::spec_from_native(v.spec_to_native()) == v,
        FillRule::spec_from_native(u) != FillRule::Unknown ==> FillRule::spec_from_native(u).spec_to_native() == u,
{
}

/// Specifies the coordinate system a clip path is interpreted in.
///
/// <http://www.graphicsmagick.org/api/types.html#clippathunits>
#[derive(Debug, Clone, Copy, PartialEq, Eq, Structural)]
pub enum ClipPathUnits {
    UserSpace,
    UserSpaceOnUse,
    ObjectBoundingBox,
    /// Stands for any native value outside the known constants.
    Unknown,
}

impl ClipPathUnits {
    /// The native integer constant this variant stands for.
    pub open spec fn spec_to_native(self) -> u32 {
        match self {
            ClipPathUnits::UserSpace => 0,
            ClipPathUnits::UserSpaceOnUse => 1,
            ClipPathUnits::ObjectBoundingBox => 2,
            ClipPathUnits::Unknown => u32::MAX,
        }
    }

    /// The variant standing for the native integer `u`; integers outside
    /// the known constants map to the `Unknown` sentinel.
    pub open spec fn spec_from_native(u: u32) -> ClipPathUnits {
        if u == 0 {
            ClipPathUnits::UserSpace
        } else if u == 1 {
            ClipPathUnits::UserSpaceOnUse
        } else if u == 2 {
            ClipPathUnits::ObjectBoundingBox
        } else {
            ClipPathUnits::Unknown
        }
    }

    /// Translate this variant to the native integer constant.
    pub fn to_native(self) -> (r: u32)
        ensures
            r == self.spec_to_native(),
    {
        match self {
            ClipPathUnits::UserSpace => 0,
            ClipPathUnits::UserSpaceOnUse => 1,
            ClipPathUnits::ObjectBoundingBox => 2,
            ClipPathUnits::Unknown => u32::MAX,
        }
    }

    /// Translate a native integer constant to the variant standing for
    /// it, with unrecognized values mapping to `Unknown`.
    pub fn from_native(u: u32) -> (r: ClipPathUnits)
        ensures
            r == ClipPathUnits::spec_from_native(u),
    {
        if u == 0 {
            ClipPathUnits::UserSpace
        } else if u == 1 {
            ClipPathUnits::UserSpaceOnUse
        } else if u == 2 {
            ClipPathUnits::ObjectBoundingBox
        } else {
            ClipPathUnits::Unknown
        }
    }
}

/// Law: translating any variant to its native constant and back yields the
/// same variant, and translating any known native constant to its variant
/// and back yields the same constant.
pub proof fn lemma_clip_path_units_round_trip(v: ClipPathUnits, u: u32)
    ensures
        ClipPathUnits::spec_from_native(v.spec_to_native()) == v,
        ClipPathUnits::spec_from_native(u) != ClipPathUnits::Unknown ==> ClipPathUnits::spec_from_native(u).spec_to_native() == u,
{
}

/// Selects the pixel-filling algorithm used when colors are replaced.
///
/// <http://www.graphicsmagick.org/api/types.html#paintmethod>
#[derive(Debug, Clone, Copy, PartialEq, Eq, Structural)]
pub enum PaintMethod {
    PointMethod,
    ReplaceMethod,
    FloodfillMethod,
    FillToBorderMethod,
    ResetMethod,
    /// Stands for any native value outside the known constants.
    Unknown,
}

impl PaintMethod {
    /// The native integer constant this variant stands for.
    pub open spec fn spec_to_native(self) -> u32 {
        match self {
            PaintMethod::PointMethod => 0,
            PaintMethod::ReplaceMethod => 1,
            PaintMethod::FloodfillMethod => 2,
            PaintMethod::FillToBorderMethod => 3,
            PaintMethod::ResetMethod => 4,
            PaintMethod::Unknown => u32::MAX,
        }
    }

    /// The variant standing for the native integer `u`; integers outside
    /// the known constants map to the `Unknown` sentinel.
    pub open spec fn spec_from_native(u: u32) -> PaintMethod {
        if u == 0 {
            PaintMethod::PointMethod
        } else if u == 1 {
            PaintMethod::ReplaceMethod
        } else if u == 2 {
            PaintMethod::FloodfillMethod
        } else if u == 3 {
            PaintMethod::FillToBorderMethod
        } else if u == 4 {
            PaintMethod::ResetMethod
        } else {
            PaintMethod::Unknown
        }
    }

    /// Translate this variant to the native integer constant.
    pub fn to_native(self) -> (r: u32)
        ensures
            r == self.spec_to_native(),
    {
        match self {
            PaintMethod::PointMethod => 0,
            PaintMethod::ReplaceMethod => 1,
            PaintMethod::FloodfillMethod => 2,
            PaintMethod::FillToBorderMethod => 3,
            PaintMethod::ResetMethod => 4,
            PaintMethod::Unknown => u32::MAX,
        }
    }

    /// Translate a native integer constant to the variant standing for
    /// it, with unrecognized values mapping to `Unknown`.
    pub fn from_native(u: u32) -> (r: PaintMethod)
        ensures
            r == PaintMethod::spec_from_native(u),
    {
        if u == 0 {
            PaintMethod::PointMethod
        } else if u == 1 {
            PaintMethod::ReplaceMethod
        } else if u == 2 {
            PaintMethod::FloodfillMethod
        } else if u == 3 {
            PaintMethod::FillToBorderMethod
        } else if u == 4 {
            PaintMethod::ResetMethod
        } else {
            PaintMethod::Unknown
        }
    }
}

/// Law: translating any variant to its native constant and back yields the
/// same variant, and translating any known native constant to its variant
/// and back yields the same constant.
pub proof fn lemma_paint_method_round_trip(v: PaintMethod, u: u32)
    ensures
        PaintMethod::spec_from_native(v.spec_to_native()) == v,
        PaintMethod::spec_from_native(u) != PaintMethod::Unknown ==> PaintMethod::spec_from_native(u).spec_to_native() == u,
{
}

/// Specifies the stretch of a font.
///
/// <http://www.graphicsmagick.org/api/types.html#stretchtype>
#[derive(Debug, Clone, Copy, PartialEq, Eq, Structural)]
pub enum StretchType {
    NormalStretch,
    UltraCondensedStretch,
    ExtraCondensedStretch,
    CondensedStretch,
    SemiCondensedStretch,
    SemiExpandedStretch,
    ExpandedStretch,
    ExtraExpandedStretch,
    UltraExpandedStretch,
    AnyStretch,
    /// Stands for any native value outside the known constants.
    Unknown,
}

impl StretchType {
    /// The native integer constant this variant stands for.
    pub open spec fn spec_to_native(self) -> u32 {
        match self {
            StretchType::NormalStretch => 0,
            StretchType::UltraCondensedStretch => 1,
            StretchType::ExtraCondensedStretch => 2,
            StretchType::CondensedStretch => 3,
            StretchType::SemiCondensedStretch => 4,
            StretchType::SemiExpandedStretch => 5,
            StretchType::ExpandedStretch => 6,
            StretchType::ExtraExpandedStretch => 7,
            StretchType::UltraExpandedStretch => 8,
            StretchType::AnyStretch => 9,
            StretchType::Unknown => u32::MAX,
        }
    }

    /// The variant standing for the native integer `u`; integers outside
    /// the known constants map to the `Unknown` sentinel.
    pub open spec fn spec_from_native(u: u32) -> StretchType {
        if u == 0 {
            StretchType::NormalStretch
        } else if u == 1 {
            StretchType::UltraCondensedStretch
        } else if u == 2 {
            StretchType::ExtraCondensedStretch
        } else if u == 3 {
            StretchType::CondensedStretch
        } else if u == 4 {
            StretchType::SemiCondensedStretch
        } else if u == 5 {
            StretchType::SemiExpandedStretch
        } else if u == 6 {
            StretchType::ExpandedStretch
        } else if u == 7 {
            StretchType::ExtraExpandedStretch
        } else if u == 8 {
            StretchType::UltraExpandedStretch
        } else if u == 9 {
            StretchType::AnyStretch
        } else {
            StretchType::Unknown
        }
    }

    /// Translate this variant to the native integer constant.
    pub fn to_native(self) -> (r: u32)
        ensures
            r == self.spec_to_native(),
    {
        match self {
            StretchType::NormalStretch => 0,
            StretchType::UltraCondensedStretch => 1,
            StretchType::ExtraCondensedStretch => 2,
            StretchType::CondensedStretch => 3,
            StretchType::SemiCondensedStretch => 4,
            StretchType::SemiExpandedStretch => 5,
            StretchType::ExpandedStretch => 6,
            StretchType::ExtraExpandedStretch => 7,
            StretchType::UltraExpandedStretch => 8,
            StretchType::AnyStretch => 9,
            StretchType::Unknown => u32::MAX,
        }
    }

    /// Translate a native integer constant to the variant standing for
    /// it, with unrecognized values mapping to `Unknown`.
    pub fn from_native(u: u32) -> (r: StretchType)
        ensures
            r == StretchType::spec_from_native(u),
    {
        if u == 0 {
            StretchType::NormalStretch
        } else if u == 1 {
            StretchType::UltraCondensedStretch
        } else if u == 2 {
            StretchType::ExtraCondensedStretch
        } else if u == 3 {
            StretchType::CondensedStretch
        } else if u == 4 {
            StretchType::SemiCondensedStretch
        } else if u == 5 {
            StretchType::SemiExpandedStretch
        } else if u == 6 {
            StretchType::ExpandedStretch
        } else if u == 7 {
            StretchType::ExtraExpandedStretch
        } else if u == 8 {
            StretchType::UltraExpandedStretch
        } else if u == 9 {
            StretchType::AnyStretch
        } else {
            StretchType::Unknown
        }
    }
}

/// Law: translating any variant to its native constant and back yields the
/// same variant, and translating any known native constant to its variant
/// and back yields the same constant.
pub proof fn lemma_stretch_type_round_trip(v: StretchType, u: u32)
    ensures
        StretchType::spec_from_native(v.spec_to_native()) == v,
        StretchType::spec_from_native(u) != StretchType::Unknown ==> StretchType::spec_from_native(u).spec_to_native() == u,
{
}

/// Specifies the style of a font.
///
/// <http://www.graphicsmagick.org/api/types.html#styletype>
#[derive(Debug, Clone, Copy, PartialEq, Eq, Structural)]
pub enum StyleType {
    NormalStyle,
    ItalicStyle,
    ObliqueStyle,
    AnyStyle,
    /// Stands for any native value outside the known constants.
    Unknown,
}

impl StyleType {
    /// The native integer constant this variant stands for.
    pub open spec fn spec_to_native(self) -> u32 {
        match self {
            StyleType::NormalStyle => 0,
            StyleType::ItalicStyle => 1,
            StyleType::ObliqueStyle => 2,
            StyleType::AnyStyle => 3,
            StyleType::Unknown => u32::MAX,
        }
    }

    /// The variant standing for the native integer `u`; integers outside
    /// the known constants map to the `Unknown` sentinel.
    pub open spec fn spec_from_native(u: u32) -> StyleType {
        if u == 0 {
            StyleType::NormalStyle
        } else if u == 1 {
            StyleType::ItalicStyle
        } else if u == 2 {
            StyleType::ObliqueStyle
        } else if u == 3 {
            StyleType::AnyStyle
        } else {
            StyleType::Unknown
        }
    }

    /// Translate this variant to the native integer constant.
    pub fn to_native(self) -> (r: u32)
        ensures
            r == self.spec_to_native(),
    {
        match self {
            StyleType::NormalStyle => 0,
            StyleType::ItalicStyle => 1,
            StyleType::ObliqueStyle => 2,
            StyleType::AnyStyle => 3,
            StyleType::Unknown => u32::MAX,
        }
    }

    /// Translate a native integer constant to the variant standing for
    /// it, with unrecognized values mapping to `Unknown`.
    pub fn from_native(u: u32) -> (r: StyleType)
        ensures
            r == StyleType::spec_from_native(u),
    {
        if u == 0 {
            StyleType::NormalStyle
        } else if u == 1 {
            StyleType::ItalicStyle
        } else if u == 2 {
            StyleType::ObliqueStyle
        } else if u == 3 {
            StyleType::AnyStyle
        } else {
            StyleType::Unknown
        }
    }
}

/// Law: translating any variant to its native constant and back yields the
/// same variant, and translating any known native constant to its variant
/// and back yields the same constant.
pub proof fn lemma_style_type_round_trip(v: StyleType, u: u32)
    ensures
        StyleType::spec_from_native(v.spec_to_native()) == v,
        StyleType::spec_from_native(u) != StyleType::Unknown ==> StyleType::spec_from_native(u).spec_to_native() == u,
{
}

/// Specifies the shape drawn at the ends of an open stroked path.
///
/// <http://www.graphicsmagick.org/api/types.html#linecap>
#[derive(Debug, Clone, Copy, PartialEq, Eq, Structural)]
pub enum LineCap {
    UndefinedCap,
    ButtCap,
    RoundCap,
    SquareCap,
    /// Stands for any native value outside the known constants.
    Unknown,
}

impl LineCap {
    /// The native integer constant this variant stands for.
    pub open spec fn spec_to_native(self) -> u32 {
        match self {
            LineCap::UndefinedCap => 0,
            LineCap::ButtCap => 1,
            LineCap::RoundCap => 2,
            LineCap::SquareCap => 3,
            LineCap::Unknown => u32::MAX,
        }
    }

    /// The variant standing for the native integer `u`; integers outside
    /// the known constants map to the `Unknown` sentinel.
    pub open spec fn spec_from_native(u: u32) -> LineCap {
        if u == 0 {
            LineCap::UndefinedCap
        } else if u == 1 {
            LineCap::ButtCap
        } else if u == 2 {
            LineCap::RoundCap
        } else if u == 3 {
            LineCap::SquareCap
        } else {
            LineCap::Unknown
        }
    }

    /// Translate this variant to the native integer constant.
    pub fn to_native(self) -> (r: u32)
        ensures
            r == self.spec_to_native(),
    {
        match self {
            LineCap::UndefinedCap => 0,
            LineCap::ButtCap => 1,
            LineCap::RoundCap => 2,
            LineCap::SquareCap => 3,
            LineCap::Unknown => u32::MAX,
        }
    }

    /// Translate a native integer constant to the variant standing for
    /// it, with unrecognized values mapping to `Unknown`.
    pub fn from_native(u: u32) -> (r: LineCap)
        ensures
            r == LineCap::spec_from_native(u),
    {
        if u == 0 {
            LineCap::UndefinedCap
        } else if u == 1 {
            LineCap::ButtCap
        } else if u == 2 {
            LineCap::RoundCap
        } else if u == 3 {
            LineCap::SquareCap
        } else {
            LineCap::Unknown
        }
    }
}

/// Law: translating any variant to its native constant and back yields the
/// same variant, and translating any known native constant to its variant
/// and back yields the same constant.
pub proof fn lemma_line_cap_round_trip(v: LineCap, u: u32)
    ensures
        LineCap::spec_from_native(v.spec_to_native()) == v,
        LineCap::spec_from_native(u) != LineCap::Unknown ==> LineCap::spec_from_native(u).spec_to_native() == u,
{
}

/// Specifies the shape drawn at the corners of a stroked path.
///
/// <http://www.graphicsmagick.org/api/types.html#linejoin>
#[derive(Debug, Clone, Copy, PartialEq, Eq, Structural)]
pub enum LineJoin {
    UndefinedJoin,
    MiterJoin,
    RoundJoin,
    BevelJoin,
    /// Stands for any native value outside the known constants.
    Unknown,
}

impl LineJoin {
    /// The native integer constant this variant stands for.
    pub open spec fn spec_to_native(self) -> u32 {
        match self {
            LineJoin::UndefinedJoin => 0,
            LineJoin::MiterJoin => 1,
            LineJoin::RoundJoin => 2,
            LineJoin::BevelJoin => 3,
            LineJoin::Unknown => u32::MAX,
        }
    }

    /// The variant standing for the native integer `u`; integers outside
    /// the known constants map to the `Unknown` sentinel.
    pub open spec fn spec_from_native(u: u32) -> LineJoin {
        if u == 0 {
            LineJoin::UndefinedJoin
        } else if u == 1 {
            LineJoin::MiterJoin
        } else if u == 2 {
            LineJoin::RoundJoin
        } else if u == 3 {
            LineJoin::BevelJoin
        } else {
            LineJoin::Unknown
        }
    }

    /// Translate this variant to the native integer constant.
    pub fn to_native(self) -> (r: u32)
        ensures
            r == self.spec_to_native(),
    {
        match self {
            LineJoin::UndefinedJoin => 0,
            LineJoin::MiterJoin => 1,
            LineJoin::RoundJoin => 2,
            LineJoin::BevelJoin => 3,
            LineJoin::Unknown => u32::MAX,
        }
    }

    /// Translate a native integer constant to the variant standing for
    /// it, with unrecognized values mapping to `Unknown`.
    pub fn from_native(u: u32) -> (r: LineJoin)
        ensures
            r == LineJoin::spec_from_native(u),
    {
        if u == 0 {
            LineJoin::UndefinedJoin
        } else if u == 1 {
            LineJoin::MiterJoin
        } else if u == 2 {
            LineJoin::RoundJoin
        } else if u == 3 {
            LineJoin::BevelJoin
        } else {
            LineJoin::Unknown
        }
    }
}

/// Law: translating any variant to its native constant and back yields the
/// same variant, and translating any known native constant to its variant
/// and back yields the same constant.
pub proof fn lemma_line_join_round_trip(v: LineJoin, u: u32)
    ensures
        LineJoin::spec_from_native(v.spec_to_native()) == v,
        LineJoin::spec_from_native(u) != LineJoin::Unknown ==> LineJoin::spec_from_native(u).spec_to_native() == u,
{
}

/// Specifies the decoration applied to rendered text.
///
/// <http://www.graphicsmagick.org/api/types.html#decorationtype>
#[derive(Debug, Clone, Copy, PartialEq, Eq, Structural)]
pub enum DecorationType {
    NoDecoration,
    UnderlineDecoration,
    OverlineDecoration,
    LineThroughDecoration,
    /// Stands for any native value outside the known constants.
    Unknown,
}

impl DecorationType {
    /// The native integer constant this variant stands for.
    pub open spec fn spec_to_native(self) -> u32 {
        match self {
            DecorationType::NoDecoration => 0,
            DecorationType::UnderlineDecoration => 1,
            DecorationType::OverlineDecoration => 2,
            DecorationType::LineThroughDecoration => 3,
            DecorationType::Unknown => u32::MAX,
        }
    }

    /// The variant standing for the native integer `u`; integers outside
    /// the known constants map to the `Unknown` sentinel.
    pub open spec fn spec_from_native(u: u32) -> DecorationType {
        if u == 0 {
            DecorationType::NoDecoration
        } else if u == 1 {
            DecorationType::UnderlineDecoration
        } else if u == 2 {
            DecorationType::OverlineDecoration
        } else if u == 3 {
            DecorationType::LineThroughDecoration
        } else {
            DecorationType::Unknown
        }
    }

    /// Translate this variant to the native integer constant.
    pub fn to_native(self) -> (r: u32)
        ensures
            r == self.spec_to_native(),
    {
        match self {
            DecorationType::NoDecoration => 0,
            DecorationType::UnderlineDecoration => 1,
            DecorationType::OverlineDecoration => 2,
            DecorationType::LineThroughDecoration => 3,
            DecorationType::Unknown => u32::MAX,
        }
    }

    /// Translate a native integer constant to the variant standing for
    /// it, with unrecognized values mapping to `Unknown`.
    pub fn from_native(u: u32) -> (r: DecorationType)
        ensures
            r == DecorationType::spec_from_native(u),
    {
        if u == 0 {
            DecorationType::NoDecoration
        } else if u == 1 {
            DecorationType::UnderlineDecoration
        } else if u == 2 {
            DecorationType::OverlineDecoration
        } else if u == 3 {
            DecorationType::LineThroughDecoration
        } else {
            DecorationType::Unknown
        }
    }
}

/// Law: translating any variant to its native constant and back yields the
/// same variant, and translating any known native constant to its variant
/// and back yields the same constant.
pub proof fn lemma_decoration_type_round_trip(v: DecorationType, u: u32)
    ensures
        DecorationType::spec_from_native(v.spec_to_native()) == v,
        DecorationType::spec_from_native(u) != DecorationType::Unknown ==> DecorationType::spec_from_native(u).spec_to_native() == u,
{
}

} // verus!
