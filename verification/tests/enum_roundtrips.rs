//! Round-trip checks of the enum translation tables: every known native
//! constant maps to its variant and back, and unknown constants map to the
//! `Unknown` sentinel in every category.

use graphicsmagick::types::{
    ChannelType, ClipPathUnits, ColorspaceType, CompositeOperator,
    CompressionType, DecorationType, DisposeType, FillRule,
    FilterTypes, GravityType, ImageType, InterlaceType,
    LineCap, LineJoin, MetricType, MontageMode,
    NoiseType, OrientationType, PaintMethod, PreviewType,
    RenderingIntent, ResolutionType, ResourceType, StorageType,
    StretchType, StyleType, VirtualPixelMethod,
};
use graphicsmagick::ExceptionType;

#[test]
fn test_channel_type_round_trip() {
    let table: &[(ChannelType, u32)] = &[
        (ChannelType::UndefinedChannel, 0),
        (ChannelType::RedChannel, 1),
        (ChannelType::CyanChannel, 2),
        (ChannelType::GreenChannel, 3),
        (ChannelType::MagentaChannel, 4),
        (ChannelType::BlueChannel, 5),
        (ChannelType::YellowChannel, 6),
        (ChannelType::OpacityChannel, 7),
        (ChannelType::BlackChannel, 8),
        (ChannelType::MatteChannel, 9),
        (ChannelType::AllChannels, 10),
        (ChannelType::GrayChannel, 11),
    ];
    for &(variant, native) in table {
        assert_eq!(variant.to_native(), native);
        assert_eq!(ChannelType::from_native(native), variant);
        assert_eq!(ChannelType::from_native(variant.to_native()), variant);
    }
    assert_eq!(ChannelType::from_native(11 + 1), ChannelType::Unknown);
    assert_eq!(ChannelType::from_native(u32::MAX), ChannelType::Unknown);
    assert_eq!(ChannelType::Unknown.to_native(), u32::MAX);
    assert_eq!(ChannelType::from_native(ChannelType::Unknown.to_native()), ChannelType::Unknown);
}

#[test]
fn test_filter_types_round_trip() {
    let table: &[(FilterTypes, u32)] = &[
        (FilterTypes::UndefinedFilter, 0),
        (FilterTypes::PointFilter, 1),
        (FilterTypes::BoxFilter, 2),
        (FilterTypes::TriangleFilter, 3),
        (FilterTypes::HermiteFilter, 4),
        (FilterTypes::HanningFilter, 5),
        (FilterTypes::HammingFilter, 6),
        (FilterTypes::BlackmanFilter, 7),
        (FilterTypes::GaussianFilter, 8),
        (FilterTypes::QuadraticFilter, 9),
        (FilterTypes::CubicFilter, 10),
        (FilterTypes::CatromFilter, 11),
        (FilterTypes::MitchellFilter, 12),
        (FilterTypes::LanczosFilter, 13),
        (FilterTypes::BesselFilter, 14),
        (FilterTypes::SincFilter, 15),
    ];
    for &(variant, native) in table {
        assert_eq!(variant.to_native(), native);
        assert_eq!(FilterTypes::from_native(native), variant);
        assert_eq!(FilterTypes::from_native(variant.to_native()), variant);
    }
    assert_eq!(FilterTypes::from_native(15 + 1), FilterTypes::Unknown);
    assert_eq!(FilterTypes::from_native(u32::MAX), FilterTypes::Unknown);
    assert_eq!(FilterTypes::Unknown.to_native(), u32::MAX);
    assert_eq!(FilterTypes::from_native(FilterTypes::Unknown.to_native()), FilterTypes::Unknown);
}

#[test]
fn test_composite_operator_round_trip() {
    let table: &[(CompositeOperator, u32)] = &[
        (CompositeOperator::UndefinedCompositeOp, 0),
        (CompositeOperator::OverCompositeOp, 1),
        (CompositeOperator::InCompositeOp, 2),
        (CompositeOperator::OutCompositeOp, 3),
        (CompositeOperator::AtopCompositeOp, 4),
        (CompositeOperator::XorCompositeOp, 5),
        (CompositeOperator::PlusCompositeOp, 6),
        (CompositeOperator::MinusCompositeOp, 7),
        (CompositeOperator::AddCompositeOp, 8),
        (CompositeOperator::SubtractCompositeOp, 9),
        (CompositeOperator::DifferenceCompositeOp, 10),
        (CompositeOperator::MultiplyCompositeOp, 11),
        (CompositeOperator::BumpmapCompositeOp, 12),
        (CompositeOperator::CopyCompositeOp, 13),
        (CompositeOperator::CopyRedCompositeOp, 14),
        (CompositeOperator::CopyGreenCompositeOp, 15),
        (CompositeOperator::CopyBlueCompositeOp, 16),
        (CompositeOperator::CopyOpacityCompositeOp, 17),
        (CompositeOperator::ClearCompositeOp, 18),
        (CompositeOperator::DissolveCompositeOp, 19),
        (CompositeOperator::DisplaceCompositeOp, 20),
        (CompositeOperator::ModulateCompositeOp, 21),
        (CompositeOperator::ThresholdCompositeOp, 22),
        (CompositeOperator::NoCompositeOp, 23),
        (CompositeOperator::DarkenCompositeOp, 24),
        (CompositeOperator::LightenCompositeOp, 25),
        (CompositeOperator::HueCompositeOp, 26),
        (CompositeOperator::SaturateCompositeOp, 27),
        (CompositeOperator::ColorizeCompositeOp, 28),
        (CompositeOperator::LuminizeCompositeOp, 29),
        (CompositeOperator::ScreenCompositeOp, 30),
        (CompositeOperator::OverlayCompositeOp, 31),
        (CompositeOperator::CopyCyanCompositeOp, 32),
        (CompositeOperator::CopyMagentaCompositeOp, 33),
        (CompositeOperator::CopyYellowCompositeOp, 34),
        (CompositeOperator::CopyBlackCompositeOp, 35),
        (CompositeOperator::DivideCompositeOp, 36),
        (CompositeOperator::HardLightCompositeOp, 37),
        (CompositeOperator::ExclusionCompositeOp, 38),
        (CompositeOperator::ColorDodgeCompositeOp, 39),
        (CompositeOperator::ColorBurnCompositeOp, 40),
        (CompositeOperator::SoftLightCompositeOp, 41),
        (CompositeOperator::LinearBurnCompositeOp, 42),
        (CompositeOperator::LinearDodgeCompositeOp, 43),
        (CompositeOperator::LinearLightCompositeOp, 44),
        (CompositeOperator::VividLightCompositeOp, 45),
        (CompositeOperator::PinLightCompositeOp, 46),
        (CompositeOperator::HardMixCompositeOp, 47),
    ];
    for &(variant, native) in table {
        assert_eq!(variant.to_native(), native);
        assert_eq!(CompositeOperator::from_native(native), variant);
        assert_eq!(CompositeOperator::from_native(variant.to_native()), variant);
    }
    assert_eq!(CompositeOperator::from_native(47 + 1), CompositeOperator::Unknown);
    assert_eq!(CompositeOperator::from_native(u32::MAX), CompositeOperator::Unknown);
    assert_eq!(CompositeOperator::Unknown.to_native(), u32::MAX);
    assert_eq!(CompositeOperator::from_native(CompositeOperator::Unknown.to_native()), CompositeOperator::Unknown);
}

#[test]
fn test_noise_type_round_trip() {
    let table: &[(NoiseType, u32)] = &[
        (NoiseType::UniformNoise, 0),
        (NoiseType::GaussianNoise, 1),
        (NoiseType::MultiplicativeGaussianNoise, 2),
        (NoiseType::ImpulseNoise, 3),
        (NoiseType::LaplacianNoise, 4),
        (NoiseType::PoissonNoise, 5),
        (NoiseType::RandomNoise, 6),
        (NoiseType::UndefinedNoise, 7),
    ];
    for &(variant, native) in table {
        assert_eq!(variant.to_native(), native);
        assert_eq!(NoiseType::from_native(native), variant);
        assert_eq!(NoiseType::from_native(variant.to_native()), variant);
    }
    assert_eq!(NoiseType::from_native(7 + 1), NoiseType::Unknown);
    assert_eq!(NoiseType::from_native(u32::MAX), NoiseType::Unknown);
    assert_eq!(NoiseType::Unknown.to_native(), u32::MAX);
    assert_eq!(NoiseType::from_native(NoiseType::Unknown.to_native()), NoiseType::Unknown);
}

#[test]
fn test_orientation_type_round_trip() {
    let table: &[(OrientationType, u32)] = &[
        (OrientationType::UndefinedOrientation, 0),
        (OrientationType::TopLeftOrientation, 1),
        (OrientationType::TopRightOrientation, 2),
        (OrientationType::BottomRightOrientation, 3),
        (OrientationType::BottomLeftOrientation, 4),
        (OrientationType::LeftTopOrientation, 5),
        (OrientationType::RightTopOrientation, 6),
        (OrientationType::RightBottomOrientation, 7),
        (OrientationType::LeftBottomOrientation, 8),
    ];
    for &(variant, native) in table {
        assert_eq!(variant.to_native(), native);
        assert_eq!(OrientationType::from_native(native), variant);
        assert_eq!(OrientationType::from_native(variant.to_native()), variant);
    }
    assert_eq!(OrientationType::from_native(8 + 1), OrientationType::Unknown);
    assert_eq!(OrientationType::from_native(u32::MAX), OrientationType::Unknown);
    assert_eq!(OrientationType::Unknown.to_native(), u32::MAX);
    assert_eq!(OrientationType::from_native(OrientationType::Unknown.to_native()), OrientationType::Unknown);
}

#[test]
fn test_metric_type_round_trip() {
    let table: &[(MetricType, u32)] = &[
        (MetricType::MeanAbsoluteErrorMetric, 0),
        (MetricType::MeanSquaredErrorMetric, 1),
        (MetricType::PeakAbsoluteErrorMetric, 2),
        (MetricType::PeakSignalToNoiseRatioMetric, 3),
        (MetricType::RootMeanSquaredErrorMetric, 4),
    ];
    for &(variant, native) in table {
        assert_eq!(variant.to_native(), native);
        assert_eq!(MetricType::from_native(native), variant);
        assert_eq!(MetricType::from_native(variant.to_native()), variant);
    }
    assert_eq!(MetricType::from_native(4 + 1), MetricType::Unknown);
    assert_eq!(MetricType::from_native(u32::MAX), MetricType::Unknown);
    assert_eq!(MetricType::Unknown.to_native(), u32::MAX);
    assert_eq!(MetricType::from_native(MetricType::Unknown.to_native()), MetricType::Unknown);
}

#[test]
fn test_colorspace_type_round_trip() {
    let table: &[(ColorspaceType, u32)] = &[
        (ColorspaceType::UndefinedColorspace, 0),
        (ColorspaceType::RGBColorspace, 1),
        (ColorspaceType::GRAYColorspace, 2),
        (ColorspaceType::TransparentColorspace, 3),
        (ColorspaceType::OHTAColorspace, 4),
        (ColorspaceType::XYZColorspace, 5),
        (ColorspaceType::YCCColorspace, 6),
        (ColorspaceType::YIQColorspace, 7),
        (ColorspaceType::YPbPrColorspace, 8),
        (ColorspaceType::YUVColorspace, 9),
        (ColorspaceType::CMYKColorspace, 10),
        (ColorspaceType::SRGBColorspace, 11),
        (ColorspaceType::HSLColorspace, 12),
        (ColorspaceType::HWBColorspace, 13),
        (ColorspaceType::LABColorspace, 14),
        (ColorspaceType::CineonLogRGBColorspace, 15),
        (ColorspaceType::Rec601LumaColorspace, 16),
        (ColorspaceType::Rec601YCbCrColorspace, 17),
        (ColorspaceType::Rec709LumaColorspace, 18),
        (ColorspaceType::Rec709YCbCrColorspace, 19),
    ];
    for &(variant, native) in table {
        assert_eq!(variant.to_native(), native);
        assert_eq!(ColorspaceType::from_native(native), variant);
        assert_eq!(ColorspaceType::from_native(variant.to_native()), variant);
    }
    assert_eq!(ColorspaceType::from_native(19 + 1), ColorspaceType::Unknown);
    assert_eq!(ColorspaceType::from_native(u32::MAX), ColorspaceType::Unknown);
    assert_eq!(ColorspaceType::Unknown.to_native(), u32::MAX);
    assert_eq!(ColorspaceType::from_native(ColorspaceType::Unknown.to_native()), ColorspaceType::Unknown);
}

#[test]
fn test_compression_type_round_trip() {
    let table: &[(CompressionType, u32)] = &[
        (CompressionType::UndefinedCompression, 0),
        (CompressionType::NoCompression, 1),
        (CompressionType::BZipCompression, 2),
        (CompressionType::FaxCompression, 3),
        (CompressionType::Group4Compression, 4),
        (CompressionType::JPEGCompression, 5),
        (CompressionType::LosslessJPEGCompression, 6),
        (CompressionType::LZWCompression, 7),
        (CompressionType::RLECompression, 8),
        (CompressionType::ZipCompression, 9),
        (CompressionType::LZMACompression, 10),
        (CompressionType::JPEG2000Compression, 11),
        (CompressionType::JBIG1Compression, 12),
    ];
    for &(variant, native) in table {
        assert_eq!(variant.to_native(), native);
        assert_eq!(CompressionType::from_native(native), variant);
        assert_eq!(CompressionType::from_native(variant.to_native()), variant);
    }
    assert_eq!(CompressionType::from_native(12 + 1), CompressionType::Unknown);
    assert_eq!(CompressionType::from_native(u32::MAX), CompressionType::Unknown);
    assert_eq!(CompressionType::Unknown.to_native(), u32::MAX);
    assert_eq!(CompressionType::from_native(CompressionType::Unknown.to_native()), CompressionType::Unknown);
}

#[test]
fn test_dispose_type_round_trip() {
    let table: &[(DisposeType, u32)] = &[
        (DisposeType::UndefinedDispose, 0),
        (DisposeType::NoneDispose, 1),
        (DisposeType::BackgroundDispose, 2),
        (DisposeType::PreviousDispose, 3),
    ];
    for &(variant, native) in table {
        assert_eq!(variant.to_native(), native);
        assert_eq!(DisposeType::from_native(native), variant);
        assert_eq!(DisposeType::from_native(variant.to_native()), variant);
    }
    assert_eq!(DisposeType::from_native(3 + 1), DisposeType::Unknown);
    assert_eq!(DisposeType::from_native(u32::MAX), DisposeType::Unknown);
    assert_eq!(DisposeType::Unknown.to_native(), u32::MAX);
    assert_eq!(DisposeType::from_native(DisposeType::Unknown.to_native()), DisposeType::Unknown);
}

#[test]
fn test_gravity_type_round_trip() {
    let table: &[(GravityType, u32)] = &[
        (GravityType::ForgetGravity, 0),
        (GravityType::NorthWestGravity, 1),
        (GravityType::NorthGravity, 2),
        (GravityType::NorthEastGravity, 3),
        (GravityType::WestGravity, 4),
        (GravityType::CenterGravity, 5),
        (GravityType::EastGravity, 6),
        (GravityType::SouthWestGravity, 7),
        (GravityType::SouthGravity, 8),
        (GravityType::SouthEastGravity, 9),
        (GravityType::StaticGravity, 10),
    ];
    for &(variant, native) in table {
        assert_eq!(variant.to_native(), native);
        assert_eq!(GravityType::from_native(native), variant);
        assert_eq!(GravityType::from_native(variant.to_native()), variant);
    }
    assert_eq!(GravityType::from_native(10 + 1), GravityType::Unknown);
    assert_eq!(GravityType::from_native(u32::MAX), GravityType::Unknown);
    assert_eq!(GravityType::Unknown.to_native(), u32::MAX);
    assert_eq!(GravityType::from_native(GravityType::Unknown.to_native()), GravityType::Unknown);
}

#[test]
fn test_interlace_type_round_trip() {
    let table: &[(InterlaceType, u32)] = &[
        (InterlaceType::UndefinedInterlace, 0),
        (InterlaceType::NoInterlace, 1),
        (InterlaceType::LineInterlace, 2),
        (InterlaceType::PlaneInterlace, 3),
        (InterlaceType::PartitionInterlace, 4),
    ];
    for &(variant, native) in table {
        assert_eq!(variant.to_native(), native);
        assert_eq!(InterlaceType::from_native(native), variant);
        assert_eq!(InterlaceType::from_native(variant.to_native()), variant);
    }
    assert_eq!(InterlaceType::from_native(4 + 1), InterlaceType::Unknown);
    assert_eq!(InterlaceType::from_native(u32::MAX), InterlaceType::Unknown);
    assert_eq!(InterlaceType::Unknown.to_native(), u32::MAX);
    assert_eq!(InterlaceType::from_native(InterlaceType::Unknown.to_native()), InterlaceType::Unknown);
}

#[test]
fn test_storage_type_round_trip() {
    let table: &[(StorageType, u32)] = &[
        (StorageType::CharPixel, 0),
        (StorageType::ShortPixel, 1),
        (StorageType::IntegerPixel, 2),
        (StorageType::LongPixel, 3),
        (StorageType::FloatPixel, 4),
        (StorageType::DoublePixel, 5),
    ];
    for &(variant, native) in table {
        assert_eq!(variant.to_native(), native);
        assert_eq!(StorageType::from_native(native), variant);
        assert_eq!(StorageType::from_native(variant.to_native()), variant);
    }
    assert_eq!(StorageType::from_native(5 + 1), StorageType::Unknown);
    assert_eq!(StorageType::from_native(u32::MAX), StorageType::Unknown);
    assert_eq!(StorageType::Unknown.to_native(), u32::MAX);
    assert_eq!(StorageType::from_native(StorageType::Unknown.to_native()), StorageType::Unknown);
}

#[test]
fn test_rendering_intent_round_trip() {
    let table: &[(RenderingIntent, u32)] = &[
        (RenderingIntent::UndefinedIntent, 0),
        (RenderingIntent::SaturationIntent, 1),
        (RenderingIntent::PerceptualIntent, 2),
        (RenderingIntent::AbsoluteIntent, 3),
        (RenderingIntent::RelativeIntent, 4),
    ];
    for &(variant, native) in table {
        assert_eq!(variant.to_native(), native);
        assert_eq!(RenderingIntent::from_native(native), variant);
        assert_eq!(RenderingIntent::from_native(variant.to_native()), variant);
    }
    assert_eq!(RenderingIntent::from_native(4 + 1), RenderingIntent::Unknown);
    assert_eq!(RenderingIntent::from_native(u32::MAX), RenderingIntent::Unknown);
    assert_eq!(RenderingIntent::Unknown.to_native(), u32::MAX);
    assert_eq!(RenderingIntent::from_native(RenderingIntent::Unknown.to_native()), RenderingIntent::Unknown);
}

#[test]
fn test_image_type_round_trip() {
    let table: &[(ImageType, u32)] = &[
        (ImageType::UndefinedType, 0),
        (ImageType::BilevelType, 1),
        (ImageType::GrayscaleType, 2),
        (ImageType::GrayscaleMatteType, 3),
        (ImageType::PaletteType, 4),
        (ImageType::PaletteMatteType, 5),
        (ImageType::TrueColorType, 6),
        (ImageType::TrueColorMatteType, 7),
        (ImageType::ColorSeparationType, 8),
        (ImageType::ColorSeparationMatteType, 9),
        (ImageType::OptimizeType, 10),
    ];
    for &(variant, native) in table {
        assert_eq!(variant.to_native(), native);
        assert_eq!(ImageType::from_native(native), variant);
        assert_eq!(ImageType::from_native(variant.to_native()), variant);
    }
    assert_eq!(ImageType::from_native(10 + 1), ImageType::Unknown);
    assert_eq!(ImageType::from_native(u32::MAX), ImageType::Unknown);
    assert_eq!(ImageType::Unknown.to_native(), u32::MAX);
    assert_eq!(ImageType::from_native(ImageType::Unknown.to_native()), ImageType::Unknown);
}

#[test]
fn test_resolution_type_round_trip() {
    let table: &[(ResolutionType, u32)] = &[
        (ResolutionType::UndefinedResolution, 0),
        (ResolutionType::PixelsPerInchResolution, 1),
        (ResolutionType::PixelsPerCentimeterResolution, 2),
    ];
    for &(variant, native) in table {
        assert_eq!(variant.to_native(), native);
        assert_eq!(ResolutionType::from_native(native), variant);
        assert_eq!(ResolutionType::from_native(variant.to_native()), variant);
    }
    assert_eq!(ResolutionType::from_native(2 + 1), ResolutionType::Unknown);
    assert_eq!(ResolutionType::from_native(u32::MAX), ResolutionType::Unknown);
    assert_eq!(ResolutionType::Unknown.to_native(), u32::MAX);
    assert_eq!(ResolutionType::from_native(ResolutionType::Unknown.to_native()), ResolutionType::Unknown);
}

#[test]
fn test_virtual_pixel_method_round_trip() {
    let table: &[(VirtualPixelMethod, u32)] = &[
        (VirtualPixelMethod::UndefinedVirtualPixelMethod, 0),
        (VirtualPixelMethod::ConstantVirtualPixelMethod, 1),
        (VirtualPixelMethod::EdgeVirtualPixelMethod, 2),
        (VirtualPixelMethod::MirrorVirtualPixelMethod, 3),
        (VirtualPixelMethod::TileVirtualPixelMethod, 4),
    ];
    for &(variant, native) in table {
        assert_eq!(variant.to_native(), native);
        assert_eq!(VirtualPixelMethod::from_native(native), variant);
        assert_eq!(VirtualPixelMethod::from_native(variant.to_native()), variant);
    }
    assert_eq!(VirtualPixelMethod::from_native(4 + 1), VirtualPixelMethod::Unknown);
    assert_eq!(VirtualPixelMethod::from_native(u32::MAX), VirtualPixelMethod::Unknown);
    assert_eq!(VirtualPixelMethod::Unknown.to_native(), u32::MAX);
    assert_eq!(VirtualPixelMethod::from_native(VirtualPixelMethod::Unknown.to_native()), VirtualPixelMethod::Unknown);
}

#[test]
fn test_resource_type_round_trip() {
    let table: &[(ResourceType, u32)] = &[
        (ResourceType::UndefinedResource, 0),
        (ResourceType::DiskResource, 1),
        (ResourceType::FileResource, 2),
        (ResourceType::MapResource, 3),
        (ResourceType::MemoryResource, 4),
        (ResourceType::PixelsResource, 5),
        (ResourceType::ThreadsResource, 6),
        (ResourceType::WidthResource, 7),
        (ResourceType::HeightResource, 8),
    ];
    for &(variant, native) in table {
        assert_eq!(variant.to_native(), native);
        assert_eq!(ResourceType::from_native(native), variant);
        assert_eq!(ResourceType::from_native(variant.to_native()), variant);
    }
    assert_eq!(ResourceType::from_native(8 + 1), ResourceType::Unknown);
    assert_eq!(ResourceType::from_native(u32::MAX), ResourceType::Unknown);
    assert_eq!(ResourceType::Unknown.to_native(), u32::MAX);
    assert_eq!(ResourceType::from_native(ResourceType::Unknown.to_native()), ResourceType::Unknown);
}

#[test]
fn test_montage_mode_round_trip() {
    let table: &[(MontageMode, u32)] = &[
        (MontageMode::UndefinedMode, 0),
        (MontageMode::FrameMode, 1),
        (MontageMode::UnframeMode, 2),
        (MontageMode::ConcatenateMode, 3),
    ];
    for &(variant, native) in table {
        assert_eq!(variant.to_native(), native);
        assert_eq!(MontageMode::from_native(native), variant);
        assert_eq!(MontageMode::from_native(variant.to_native()), variant);
    }
    assert_eq!(MontageMode::from_native(3 + 1), MontageMode::Unknown);
    assert_eq!(MontageMode::from_native(u32::MAX), MontageMode::Unknown);
    assert_eq!(MontageMode::Unknown.to_native(), u32::MAX);
    assert_eq!(MontageMode::from_native(MontageMode::Unknown.to_native()), MontageMode::Unknown);
}

#[test]
fn test_preview_type_round_trip() {
    let table: &[(PreviewType, u32)] = &[
        (PreviewType::UndefinedPreview, 0),
        (PreviewType::RotatePreview, 1),
        (PreviewType::ShearPreview, 2),
        (PreviewType::RollPreview, 3),
        (PreviewType::HuePreview, 4),
        (PreviewType::SaturationPreview, 5),
        (PreviewType::BrightnessPreview, 6),
        (PreviewType::GammaPreview, 7),
        (PreviewType::SpiffPreview, 8),
        (PreviewType::DullPreview, 9),
        (PreviewType::GrayscalePreview, 10),
        (PreviewType::QuantizePreview, 11),
        (PreviewType::DespecklePreview, 12),
        (PreviewType::ReduceNoisePreview, 13),
        (PreviewType::AddNoisePreview, 14),
        (PreviewType::SharpenPreview, 15),
        (PreviewType::BlurPreview, 16),
        (PreviewType::ThresholdPreview, 17),
        (PreviewType::EdgeDetectPreview, 18),
        (PreviewType::SpreadPreview, 19),
        (PreviewType::SolarizePreview, 20),
        (PreviewType::ShadePreview, 21),
        (PreviewType::RaisePreview, 22),
        (PreviewType::SegmentPreview, 23),
        (PreviewType::SwirlPreview, 24),
        (PreviewType::ImplodePreview, 25),
        (PreviewType::WavePreview, 26),
        (PreviewType::OilPaintPreview, 27),
        (PreviewType::CharcoalDrawingPreview, 28),
        (PreviewType::JPEGPreview, 29),
    ];
    for &(variant, native) in table {
        assert_eq!(variant.to_native(), native);
        assert_eq!(PreviewType::from_native(native), variant);
        assert_eq!(PreviewType::from_native(variant.to_native()), variant);
    }
    assert_eq!(PreviewType::from_native(29 + 1), PreviewType::Unknown);
    assert_eq!(PreviewType::from_native(u32::MAX), PreviewType::Unknown);
    assert_eq!(PreviewType::Unknown.to_native(), u32::MAX);
    assert_eq!(PreviewType::from_native(PreviewType::Unknown.to_native()), PreviewType::Unknown);
}

#[test]
fn test_fill_rule_round_trip() {
    let table: &[(FillRule, u32)] = &[
        (FillRule::UndefinedRule, 0),
        (FillRule::EvenOddRule, 1),
        (FillRule::NonZeroRule, 2),
    ];
    for &(variant, native) in table {
        assert_eq!(variant.to_native(), native);
        assert_eq!(FillRule::from_native(native), variant);
        assert_eq!(FillRule::from_native(variant.to_native()), variant);
    }
    assert_eq!(FillRule::from_native(2 + 1), FillRule::Unknown);
    assert_eq!(FillRule::from_native(u32::MAX), FillRule::Unknown);
    assert_eq!(FillRule::Unknown.to_native(), u32::MAX);
    assert_eq!(FillRule::from_native(FillRule::Unknown.to_native()), FillRule::Unknown);
}

#[test]
fn test_clip_path_units_round_trip() {
    let table: &[(ClipPathUnits, u32)] = &[
        (ClipPathUnits::UserSpace, 0),
        (ClipPathUnits::UserSpaceOnUse, 1),
        (ClipPathUnits::ObjectBoundingBox, 2),
    ];
    for &(variant, native) in table {
        assert_eq!(variant.to_native(), native);
        assert_eq!(ClipPathUnits::from_native(native), variant);
        assert_eq!(ClipPathUnits::from_native(variant.to_native()), variant);
    }
    assert_eq!(ClipPathUnits::from_native(2 + 1), ClipPathUnits::Unknown);
    assert_eq!(ClipPathUnits::from_native(u32::MAX), ClipPathUnits::Unknown);
    assert_eq!(ClipPathUnits::Unknown.to_native(), u32::MAX);
    assert_eq!(ClipPathUnits::from_native(ClipPathUnits::Unknown.to_native()), ClipPathUnits::Unknown);
}

#[test]
fn test_paint_method_round_trip() {
    let table: &[(PaintMethod, u32)] = &[
        (PaintMethod::PointMethod, 0),
        (PaintMethod::ReplaceMethod, 1),
        (PaintMethod::FloodfillMethod, 2),
        (PaintMethod::FillToBorderMethod, 3),
        (PaintMethod::ResetMethod, 4),
    ];
    for &(variant, native) in table {
        assert_eq!(variant.to_native(), native);
        assert_eq!(PaintMethod::from_native(native), variant);
        assert_eq!(PaintMethod::from_native(variant.to_native()), variant);
    }
    assert_eq!(PaintMethod::from_native(4 + 1), PaintMethod::Unknown);
    assert_eq!(PaintMethod::from_native(u32::MAX), PaintMethod::Unknown);
    assert_eq!(PaintMethod::Unknown.to_native(), u32::MAX);
    assert_eq!(PaintMethod::from_native(PaintMethod::Unknown.to_native()), PaintMethod::Unknown);
}

#[test]
fn test_stretch_type_round_trip() {
    let table: &[(StretchType, u32)] = &[
        (StretchType::NormalStretch, 0),
        (StretchType::UltraCondensedStretch, 1),
        (StretchType::ExtraCondensedStretch, 2),
        (StretchType::CondensedStretch, 3),
        (StretchType::SemiCondensedStretch, 4),
        (StretchType::SemiExpandedStretch, 5),
        (StretchType::ExpandedStretch, 6),
        (StretchType::ExtraExpandedStretch, 7),
        (StretchType::UltraExpandedStretch, 8),
        (StretchType::AnyStretch, 9),
    ];
    for &(variant, native) in table {
        assert_eq!(variant.to_native(), native);
        assert_eq!(StretchType::from_native(native), variant);
        assert_eq!(StretchType::from_native(variant.to_native()), variant);
    }
    assert_eq!(StretchType::from_native(9 + 1), StretchType::Unknown);
    assert_eq!(StretchType::from_native(u32::MAX), StretchType::Unknown);
    assert_eq!(StretchType::Unknown.to_native(), u32::MAX);
    assert_eq!(StretchType::from_native(StretchType::Unknown.to_native()), StretchType::Unknown);
}

#[test]
fn test_style_type_round_trip() {
    let table: &[(StyleType, u32)] = &[
        (StyleType::NormalStyle, 0),
        (StyleType::ItalicStyle, 1),
        (StyleType::ObliqueStyle, 2),
        (StyleType::AnyStyle, 3),
    ];
    for &(variant, native) in table {
        assert_eq!(variant.to_native(), native);
        assert_eq!(StyleType::from_native(native), variant);
        assert_eq!(StyleType::from_native(variant.to_native()), variant);
    }
    assert_eq!(StyleType::from_native(3 + 1), StyleType::Unknown);
    assert_eq!(StyleType::from_native(u32::MAX), StyleType::Unknown);
    assert_eq!(StyleType::Unknown.to_native(), u32::MAX);
    assert_eq!(StyleType::from_native(StyleType::Unknown.to_native()), StyleType::Unknown);
}

#[test]
fn test_line_cap_round_trip() {
    let table: &[(LineCap, u32)] = &[
        (LineCap::UndefinedCap, 0),
        (LineCap::ButtCap, 1),
        (LineCap::RoundCap, 2),
        (LineCap::SquareCap, 3),
    ];
    for &(variant, native) in table {
        assert_eq!(variant.to_native(), native);
        assert_eq!(LineCap::from_native(native), variant);
        assert_eq!(LineCap::from_native(variant.to_native()), variant);
    }
    assert_eq!(LineCap::from_native(3 + 1), LineCap::Unknown);
    assert_eq!(LineCap::from_native(u32::MAX), LineCap::Unknown);
    assert_eq!(LineCap::Unknown.to_native(), u32::MAX);
    assert_eq!(LineCap::from_native(LineCap::Unknown.to_native()), LineCap::Unknown);
}

#[test]
fn test_line_join_round_trip() {
    let table: &[(LineJoin, u32)] = &[
        (LineJoin::UndefinedJoin, 0),
        (LineJoin::MiterJoin, 1),
        (LineJoin::RoundJoin, 2),
        (LineJoin::BevelJoin, 3),
    ];
    for &(variant, native) in table {
        assert_eq!(variant.to_native(), native);
        assert_eq!(LineJoin::from_native(native), variant);
        assert_eq!(LineJoin::from_native(variant.to_native()), variant);
    }
    assert_eq!(LineJoin::from_native(3 + 1), LineJoin::Unknown);
    assert_eq!(LineJoin::from_native(u32::MAX), LineJoin::Unknown);
    assert_eq!(LineJoin::Unknown.to_native(), u32::MAX);
    assert_eq!(LineJoin::from_native(LineJoin::Unknown.to_native()), LineJoin::Unknown);
}

#[test]
fn test_decoration_type_round_trip() {
    let table: &[(DecorationType, u32)] = &[
        (DecorationType::NoDecoration, 0),
        (DecorationType::UnderlineDecoration, 1),
        (DecorationType::OverlineDecoration, 2),
        (DecorationType::LineThroughDecoration, 3),
    ];
    for &(variant, native) in table {
        assert_eq!(variant.to_native(), native);
        assert_eq!(DecorationType::from_native(native), variant);
        assert_eq!(DecorationType::from_native(variant.to_native()), variant);
    }
    assert_eq!(DecorationType::from_native(3 + 1), DecorationType::Unknown);
    assert_eq!(DecorationType::from_native(u32::MAX), DecorationType::Unknown);
    assert_eq!(DecorationType::Unknown.to_native(), u32::MAX);
    assert_eq!(DecorationType::from_native(DecorationType::Unknown.to_native()), DecorationType::Unknown);
}

#[test]
fn test_exception_type_round_trip() {
    let table: &[(ExceptionType, u32)] = &[
        (ExceptionType::UndefinedException, 0),
        (ExceptionType::EventException, 100),
        (ExceptionType::ExceptionEvent, 101),
        (ExceptionType::ResourceEvent, 102),
        (ExceptionType::TypeEvent, 105),
        (ExceptionType::OptionEvent, 106),
        (ExceptionType::DelegateEvent, 107),
        (ExceptionType::MissingDelegateEvent, 108),
        (ExceptionType::CorruptImageEvent, 109),
        (ExceptionType::FileOpenEvent, 110),
        (ExceptionType::BlobEvent, 111),
        (ExceptionType::StreamEvent, 112),
        (ExceptionType::CacheEvent, 113),
        (ExceptionType::CoderEvent, 114),
        (ExceptionType::ModuleEvent, 115),
        (ExceptionType::DrawEvent, 116),
        (ExceptionType::ImageEvent, 117),
        (ExceptionType::WandEvent, 118),
        (ExceptionType::TemporaryFileEvent, 119),
        (ExceptionType::TransformEvent, 120),
        (ExceptionType::XServerEvent, 121),
        (ExceptionType::X11Event, 122),
        (ExceptionType::UserEvent, 123),
        (ExceptionType::MonitorEvent, 124),
        (ExceptionType::LocaleEvent, 125),
        (ExceptionType::DeprecateEvent, 126),
        (ExceptionType::RegistryEvent, 127),
        (ExceptionType::ConfigureEvent, 128),
        (ExceptionType::WarningException, 300),
        (ExceptionType::ExceptionWarning, 301),
        (ExceptionType::ResourceWarning, 302),
        (ExceptionType::TypeWarning, 305),
        (ExceptionType::OptionWarning, 306),
        (ExceptionType::DelegateWarning, 307),
        (ExceptionType::MissingDelegateWarning, 308),
        (ExceptionType::CorruptImageWarning, 309),
        (ExceptionType::FileOpenWarning, 310),
        (ExceptionType::BlobWarning, 311),
        (ExceptionType::StreamWarning, 312),
        (ExceptionType::CacheWarning, 313),
        (ExceptionType::CoderWarning, 314),
        (ExceptionType::ModuleWarning, 315),
        (ExceptionType::DrawWarning, 316),
        (ExceptionType::ImageWarning, 317),
        (ExceptionType::WandWarning, 318),
        (ExceptionType::TemporaryFileWarning, 319),
        (ExceptionType::TransformWarning, 320),
        (ExceptionType::XServerWarning, 321),
        (ExceptionType::X11Warning, 322),
        (ExceptionType::UserWarning, 323),
        (ExceptionType::MonitorWarning, 324),
        (ExceptionType::LocaleWarning, 325),
        (ExceptionType::DeprecateWarning, 326),
        (ExceptionType::RegistryWarning, 327),
        (ExceptionType::ConfigureWarning, 328),
        (ExceptionType::ErrorException, 400),
        (ExceptionType::ExceptionError, 401),
        (ExceptionType::ResourceError, 402),
        (ExceptionType::TypeError, 405),
        (ExceptionType::OptionError, 406),
        (ExceptionType::DelegateError, 407),
        (ExceptionType::MissingDelegateError, 408),
        (ExceptionType::CorruptImageError, 409),
        (ExceptionType::FileOpenError, 410),
        (ExceptionType::BlobError, 411),
        (ExceptionType::StreamError, 412),
        (ExceptionType::CacheError, 413),
        (ExceptionType::CoderError, 414),
        (ExceptionType::ModuleError, 415),
        (ExceptionType::DrawError, 416),
        (ExceptionType::ImageError, 417),
        (ExceptionType::WandError, 418),
        (ExceptionType::TemporaryFileError, 419),
        (ExceptionType::TransformError, 420),
        (ExceptionType::XServerError, 421),
        (ExceptionType::X11Error, 422),
        (ExceptionType::UserError, 423),
        (ExceptionType::MonitorError, 424),
        (ExceptionType::LocaleError, 425),
        (ExceptionType::DeprecateError, 426),
        (ExceptionType::RegistryError, 427),
        (ExceptionType::ConfigureError, 428),
        (ExceptionType::FatalErrorException, 700),
        (ExceptionType::ExceptionFatalError, 701),
        (ExceptionType::ResourceFatalError, 702),
        (ExceptionType::TypeFatalError, 705),
        (ExceptionType::OptionFatalError, 706),
        (ExceptionType::DelegateFatalError, 707),
        (ExceptionType::MissingDelegateFatalError, 708),
        (ExceptionType::CorruptImageFatalError, 709),
        (ExceptionType::FileOpenFatalError, 710),
        (ExceptionType::BlobFatalError, 711),
        (ExceptionType::StreamFatalError, 712),
        (ExceptionType::CacheFatalError, 713),
        (ExceptionType::CoderFatalError, 714),
        (ExceptionType::ModuleFatalError, 715),
        (ExceptionType::DrawFatalError, 716),
        (ExceptionType::ImageFatalError, 717),
        (ExceptionType::WandFatalError, 718),
        (ExceptionType::TemporaryFileFatalError, 719),
        (ExceptionType::TransformFatalError, 720),
        (ExceptionType::XServerFatalError, 721),
        (ExceptionType::X11FatalError, 722),
        (ExceptionType::UserFatalError, 723),
        (ExceptionType::MonitorFatalError, 724),
        (ExceptionType::LocaleFatalError, 725),
        (ExceptionType::DeprecateFatalError, 726),
        (ExceptionType::RegistryFatalError, 727),
        (ExceptionType::ConfigureFatalError, 728),
    ];
    for &(variant, native) in table {
        assert_eq!(variant.to_native(), native);
        assert_eq!(ExceptionType::from_native(native), variant);
        assert_eq!(ExceptionType::from_native(variant.to_native()), variant);
    }
    assert_eq!(ExceptionType::from_native(728 + 1), ExceptionType::Unknown);
    assert_eq!(ExceptionType::from_native(u32::MAX), ExceptionType::Unknown);
    assert_eq!(ExceptionType::Unknown.to_native(), u32::MAX);
    assert_eq!(ExceptionType::from_native(ExceptionType::Unknown.to_native()), ExceptionType::Unknown);
}
