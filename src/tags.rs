use vstd::prelude::*;
use crate::text::{decimal, decimal_string};

verus! {

/// Numeric format of a directory entry's components.
#[allow(non_camel_case_types)]
#[derive(Debug, PartialEq, Eq, Structural, Clone, Copy)]
pub enum FMT {
    NONE,
    BYTE,
    STRING,
    USHORT,
    ULONG,
    URATIONAL,
    SBYTE,
    UNDEFINED,
    SSHORT,
    SLONG,
    SRATIONAL,
    SINGLE,
    DOUBLE,
    /// Marks a code that names no known format.
    NUM_FORMATS,
    UTF_8,
}

/// The format that an on-disk format code stands for.
pub open spec fn format_of(v: u16) -> FMT {
    match v {
        0 => FMT::NONE,
        1 => FMT::BYTE,
        2 => FMT::STRING,
        3 => FMT::USHORT,
        4 => FMT::ULONG,
        5 => FMT::URATIONAL,
        6 => FMT::SBYTE,
        7 => FMT::UNDEFINED,
        8 => FMT::SSHORT,
        9 => FMT::SLONG,
        10 => FMT::SRATIONAL,
        11 => FMT::SINGLE,
        12 => FMT::DOUBLE,
        129 => FMT::UTF_8,
        _ => FMT::NUM_FORMATS,
    }
}

/// Width in bytes of one component of each format.
pub open spec fn format_width(f: FMT) -> nat {
    match f {
        FMT::NONE => 0,
        FMT::BYTE | FMT::STRING | FMT::SBYTE | FMT::UNDEFINED | FMT::UTF_8 => 1,
        FMT::USHORT | FMT::SSHORT => 2,
        FMT::ULONG | FMT::SLONG | FMT::SINGLE => 4,
        FMT::URATIONAL | FMT::SRATIONAL | FMT::DOUBLE => 8,
        FMT::NUM_FORMATS => 0,
    }
}

impl FMT {
    /// Decodes an on-disk format code; unknown codes give `NUM_FORMATS`.
    pub fn from(v: u16) -> (r: FMT)
        ensures
            r == format_of(v),
    {
        match v {
            0 => FMT::NONE,
            1 => FMT::BYTE,
            2 => FMT::STRING,
            3 => FMT::USHORT,
            4 => FMT::ULONG,
            5 => FMT::URATIONAL,
            6 => FMT::SBYTE,
            7 => FMT::UNDEFINED,
            8 => FMT::SSHORT,
            9 => FMT::SLONG,
            10 => FMT::SRATIONAL,
            11 => FMT::SINGLE,
            12 => FMT::DOUBLE,
            129 => FMT::UTF_8,
            _ => FMT::NUM_FORMATS,
        }
    }
}

/// Width in bytes of one component of format `f`.
pub fn bytes_per_format(f: FMT) -> (r: usize)
    ensures
        r == format_width(f),
        r <= 8,
{
    match f {
        FMT::NONE => 0,
        FMT::BYTE | FMT::STRING | FMT::SBYTE | FMT::UNDEFINED | FMT::UTF_8 => 1,
        FMT::USHORT | FMT::SSHORT => 2,
        FMT::ULONG | FMT::SLONG | FMT::SINGLE => 4,
        FMT::URATIONAL | FMT::SRATIONAL | FMT::DOUBLE => 8,
        FMT::NUM_FORMATS => 0,
    }
}

/// Symbolic identity of a tag of the primary and Exif directories.
#[allow(non_camel_case_types)]
#[derive(Debug, PartialEq, Eq, Structural, Clone, Copy)]
pub enum ExifTagId {
    InteropIndex,
    InteropVersion,
    ImageWidth,
    ImageLength,
    BitsPerSample,
    Compression,
    PhotometricInterpretation,
    FillOrder,
    DocumentName,
    ImageDescription,
    Make,
    Model,
    StripOffsets,
    Orientation,
    SamplesPerPixel,
    RowsPerStrip,
    StripByteCounts,
    XResolution,
    YResolution,
    PlanarConfiguration,
    ResolutionUnit,
    TransferFunction,
    Software,
    DateTime,
    Artist,
    WhitePoint,
    PrimaryChromaticities,
    TransferRange,
    JPEGProc,
    ThumbnailOffset,
    ThumbnailLength,
    YCbCrCoefficients,
    YCbCrSubSampling,
    YCbCrPositioning,
    ReferenceBlackWhite,
    RelatedImageWidth,
    RelatedImageLength,
    CFARepeatPatternDim,
    BatteryLevel,
    Copyright,
    ExposureTime,
    FNUMBER,
    IPTC_NAA,
    EXIF_OFFSET,
    InterColorProfile,
    EXPOSURE_PROGRAM,
    SpectralSensitivity,
    GPSInfo,
    ISO_EQUIVALENT,
    OECF,
    SensitivityType,
    StandardOutputSensitivity,
    RecommendedExposureIndex,
    ISOSpeed,
    ISOSpeedLatitudeyyy,
    ISOSpeedLatitudezzz,
    ExifVersion,
    DateTimeOriginal,
    DateTimeDigitized,
    OffsetTime,
    OffsetTimeOriginal,
    OffsetTimeDigitized,
    ComponentsConfiguration,
    CompressedBitsPerPixel,
    ShutterSpeedValue,
    ApertureValue,
    BrightnessValue,
    ExposureBiasValue,
    MaxApertureValue,
    SubjectDistance,
    MeteringMode,
    LightSource,
    Flash,
    FocalLength,
    FlashEnergy_,
    SpatialFrequencyResponse_,
    FOCALPLANEXRES_,
    FocalPlaneYResolution_,
    FOCALPLANEUNITS_,
    ExposureIndex,
    SensingMethod_,
    MakerNote,
    UserComment,
    SubSecTime,
    SubSecTimeOriginal,
    SubSecTimeDigitized,
    Temperature,
    Humidity,
    Pressure,
    WaterDepth,
    Acceleration,
    CameraElevationAngle,
    FlashPixVersion,
    ColorSpace,
    PixelXDimension,
    PixelYDimension,
    RelatedAudioFile,
    INTEROP_OFFSET,
    FlashEnergy,
    SpatialFrequencyResponse,
    FOCALPLANEXRES,
    FocalPlaneYResolution,
    FOCALPLANEUNITS,
    SubjectLocation,
    EXPOSURE_INDEX,
    SensingMethod,
    FileSource,
    SceneType,
    CFAPattern,
    CustomRendered,
    ExposureMode,
    WhiteBalance,
    DigitalZoomRatio,
    FOCALLENGTH_35MM,
    SceneCaptureType,
    GainControl,
    Contrast,
    Saturation,
    Sharpness,
    DeviceSettingDescription,
    SubjectDistanceRange,
    ImageUniqueID,
    CameraOwnerName,
    BodySerialNumber,
    LensSpecification,
    LensMake,
    LensModel,
    LensSerialNumber,
    ImageTitle,
    Photographer,
    ImageEditor,
    CameraFirmware,
    RAWDevelopingSoftware,
    ImageEditingSoftware,
    MetadataEditingSoftware,
    CompositeImage,
    SourceImageNumberOfCompositeImage,
    SourceExposureTimesOfCompositeImage,
    Gamma,
    UndefinedExifTag,
}

/// Symbolic identity of a tag of the GPS directory.
#[allow(non_camel_case_types)]
#[derive(Debug, PartialEq, Eq, Structural, Clone, Copy)]
pub enum GpsTagId {
    VersionID,
    LatitudeRef,
    Latitude,
    LongitudeRef,
    Longitude,
    AltitudeRef,
    Altitude,
    TimeStamp,
    Satelites,
    Status,
    MeasureMode,
    DOP,
    SpeedRef,
    Speed,
    TrackRef,
    Track,
    ImgDirectionRef,
    ImgDirection,
    MapDatum,
    DestLatitudeRef,
    DestLatitude,
    DestLongitudeRef,
    DestLongitude,
    DestBearingRef,
    DestBearing,
    DestDistanceRef,
    DestDistance,
    ProcessingMethod,
    AreaInformation,
    DateStamp,
    Differential,
    HPositioningError,
    UndefinedGpsTag,
}

/// Registry of the primary and Exif tags: identity and display name by id.
pub open spec fn exif_tag_info(id: u16) -> Option<(ExifTagId, Seq<char>)> {
    match id {
        0x0001 => Some((ExifTagId::InteropIndex, "InteropIndex"@)),
        0x0002 => Some((ExifTagId::InteropVersion, "InteropVersion"@)),
        0x0100 => Some((ExifTagId::ImageWidth, "ImageWidth"@)),
        0x0101 => Some((ExifTagId::ImageLength, "ImageLength"@)),
        0x0102 => Some((ExifTagId::BitsPerSample, "BitsPerSample"@)),
        0x0103 => Some((ExifTagId::Compression, "Compression"@)),
        0x0106 => Some((ExifTagId::PhotometricInterpretation, "PhotometricInterpretation"@)),
        0x010a => Some((ExifTagId::FillOrder, "FillOrder"@)),
        0x010d => Some((ExifTagId::DocumentName, "DocumentName"@)),
        0x010e => Some((ExifTagId::ImageDescription, "ImageDescription"@)),
        0x010f => Some((ExifTagId::Make, "Make"@)),
        0x0110 => Some((ExifTagId::Model, "Model"@)),
        0x0111 => Some((ExifTagId::StripOffsets, "StripOffsets"@)),
        0x0112 => Some((ExifTagId::Orientation, "Orientation"@)),
        0x0115 => Some((ExifTagId::SamplesPerPixel, "SamplesPerPixel"@)),
        0x0116 => Some((ExifTagId::RowsPerStrip, "RowsPerStrip"@)),
        0x0117 => Some((ExifTagId::StripByteCounts, "StripByteCounts"@)),
        0x011a => Some((ExifTagId::XResolution, "XResolution"@)),
        0x011b => Some((ExifTagId::YResolution, "YResolution"@)),
        0x011c => Some((ExifTagId::PlanarConfiguration, "PlanarConfiguration"@)),
        0x0128 => Some((ExifTagId::ResolutionUnit, "ResolutionUnit"@)),
        0x012d => Some((ExifTagId::TransferFunction, "TransferFunction"@)),
        0x0131 => Some((ExifTagId::Software, "Software"@)),
        0x0132 => Some((ExifTagId::DateTime, "DateTime"@)),
        0x013b => Some((ExifTagId::Artist, "Artist"@)),
        0x013e => Some((ExifTagId::WhitePoint, "WhitePoint"@)),
        0x013f => Some((ExifTagId::PrimaryChromaticities, "PrimaryChromaticities"@)),
        0x0156 => Some((ExifTagId::TransferRange, "TransferRange"@)),
        0x0200 => Some((ExifTagId::JPEGProc, "JPEGProc"@)),
        0x0201 => Some((ExifTagId::ThumbnailOffset, "ThumbnailOffset"@)),
        0x0202 => Some((ExifTagId::ThumbnailLength, "ThumbnailLength"@)),
        0x0211 => Some((ExifTagId::YCbCrCoefficients, "YCbCrCoefficients"@)),
        0x0212 => Some((ExifTagId::YCbCrSubSampling, "YCbCrSubSampling"@)),
        0x0213 => Some((ExifTagId::YCbCrPositioning, "YCbCrPositioning"@)),
        0x0214 => Some((ExifTagId::ReferenceBlackWhite, "ReferenceBlackWhite"@)),
        0x1001 => Some((ExifTagId::RelatedImageWidth, "RelatedImageWidth"@)),
        0x1002 => Some((ExifTagId::RelatedImageLength, "RelatedImageLength"@)),
        0x828d => Some((ExifTagId::CFARepeatPatternDim, "CFARepeatPatternDim"@)),
        0x828f => Some((ExifTagId::BatteryLevel, "BatteryLevel"@)),
        0x8298 => Some((ExifTagId::Copyright, "Copyright"@)),
        0x829a => Some((ExifTagId::ExposureTime, "ExposureTime"@)),
        0x829d => Some((ExifTagId::FNUMBER, "FNumber"@)),
        0x83bb => Some((ExifTagId::IPTC_NAA, "IPTC/NAA"@)),
        0x8769 => Some((ExifTagId::EXIF_OFFSET, "ExifOffset"@)),
        0x8773 => Some((ExifTagId::InterColorProfile, "InterColorProfile"@)),
        0x8822 => Some((ExifTagId::EXPOSURE_PROGRAM, "ExposureProgram"@)),
        0x8824 => Some((ExifTagId::SpectralSensitivity, "SpectralSensitivity"@)),
        0x8825 => Some((ExifTagId::GPSInfo, "GPSInfo"@)),
        0x8827 => Some((ExifTagId::ISO_EQUIVALENT, "ISOSpeedRatings"@)),
        0x8828 => Some((ExifTagId::OECF, "OECF"@)),
        0x8830 => Some((ExifTagId::SensitivityType, "SensitivityType"@)),
        0x8831 => Some((ExifTagId::StandardOutputSensitivity, "StandardOutputSensitivity"@)),
        0x8832 => Some((ExifTagId::RecommendedExposureIndex, "RecommendedExposureIndex"@)),
        0x8833 => Some((ExifTagId::ISOSpeed, "ISOSpeed"@)),
        0x8834 => Some((ExifTagId::ISOSpeedLatitudeyyy, "ISOSpeedLatitudeyyy"@)),
        0x8835 => Some((ExifTagId::ISOSpeedLatitudezzz, "ISOSpeedLatitudezzz"@)),
        0x9000 => Some((ExifTagId::ExifVersion, "ExifVersion"@)),
        0x9003 => Some((ExifTagId::DateTimeOriginal, "DateTimeOriginal"@)),
        0x9004 => Some((ExifTagId::DateTimeDigitized, "DateTimeDigitized"@)),
        0x9010 => Some((ExifTagId::OffsetTime, "OffsetTime"@)),
        0x9011 => Some((ExifTagId::OffsetTimeOriginal, "OffsetTimeOriginal"@)),
        0x9012 => Some((ExifTagId::OffsetTimeDigitized, "OffsetTimeDigitized "@)),
        0x9101 => Some((ExifTagId::ComponentsConfiguration, "ComponentsConfiguration"@)),
        0x9102 => Some((ExifTagId::CompressedBitsPerPixel, "CompressedBitsPerPixel"@)),
        0x9201 => Some((ExifTagId::ShutterSpeedValue, "ShutterSpeedValue"@)),
        0x9202 => Some((ExifTagId::ApertureValue, "ApertureValue"@)),
        0x9203 => Some((ExifTagId::BrightnessValue, "BrightnessValue"@)),
        0x9204 => Some((ExifTagId::ExposureBiasValue, "ExposureBiasValue"@)),
        0x9205 => Some((ExifTagId::MaxApertureValue, "MaxApertureValue"@)),
        0x9206 => Some((ExifTagId::SubjectDistance, "SubjectDistance"@)),
        0x9207 => Some((ExifTagId::MeteringMode, "MeteringMode"@)),
        0x9208 => Some((ExifTagId::LightSource, "LightSource"@)),
        0x9209 => Some((ExifTagId::Flash, "Flash"@)),
        0x920a => Some((ExifTagId::FocalLength, "FocalLength"@)),
        0x920b => Some((ExifTagId::FlashEnergy_, "FlashEnergy"@)),
        0x920c => Some((ExifTagId::SpatialFrequencyResponse_, "SpatialFrequencyResponse"@)),
        0x920e => Some((ExifTagId::FOCALPLANEXRES_, "FocalPlaneXResolution"@)),
        0x920f => Some((ExifTagId::FocalPlaneYResolution_, "FocalPlaneYResolution"@)),
        0x9210 => Some((ExifTagId::FOCALPLANEUNITS_, "FocalPlaneResolutionUnit"@)),
        0x9215 => Some((ExifTagId::ExposureIndex, "ExposureIndex"@)),
        0x9217 => Some((ExifTagId::SensingMethod_, "SensingMethod"@)),
        0x927c => Some((ExifTagId::MakerNote, "MakerNote"@)),
        0x9286 => Some((ExifTagId::UserComment, "UserComment"@)),
        0x9290 => Some((ExifTagId::SubSecTime, "SubSecTime"@)),
        0x9291 => Some((ExifTagId::SubSecTimeOriginal, "SubSecTimeOriginal"@)),
        0x9292 => Some((ExifTagId::SubSecTimeDigitized, "SubSecTimeDigitized"@)),
        0x9400 => Some((ExifTagId::Temperature, "Temperature"@)),
        0x9401 => Some((ExifTagId::Humidity, "Humidity"@)),
        0x9402 => Some((ExifTagId::Pressure, "Pressure"@)),
        0x9403 => Some((ExifTagId::WaterDepth, "WaterDepth"@)),
        0x9404 => Some((ExifTagId::Acceleration, "Acceleration"@)),
        0x9405 => Some((ExifTagId::CameraElevationAngle, "CameraElevationAngle"@)),
        0xa000 => Some((ExifTagId::FlashPixVersion, "FlashPixVersion"@)),
        0xa001 => Some((ExifTagId::ColorSpace, "ColorSpace"@)),
        0xa002 => Some((ExifTagId::PixelXDimension, "PixelXDimension"@)),
        0xa003 => Some((ExifTagId::PixelYDimension, "PixelYDimension"@)),
        0xa004 => Some((ExifTagId::RelatedAudioFile, "RelatedAudioFile"@)),
        0xa005 => Some((ExifTagId::INTEROP_OFFSET, "InteroperabilityOffset"@)),
        0xa20b => Some((ExifTagId::FlashEnergy, "FlashEnergy"@)),
        0xa20c => Some((ExifTagId::SpatialFrequencyResponse, "SpatialFrequencyResponse"@)),
        0xa20e => Some((ExifTagId::FOCALPLANEXRES, "FocalPlaneXResolution"@)),
        0xa20f => Some((ExifTagId::FocalPlaneYResolution, "FocalPlaneYResolution"@)),
        0xa210 => Some((ExifTagId::FOCALPLANEUNITS, "FocalPlaneResolutionUnit"@)),
        0xa214 => Some((ExifTagId::SubjectLocation, "SubjectLocation"@)),
        0xa215 => Some((ExifTagId::EXPOSURE_INDEX, "ExposureIndex"@)),
        0xa217 => Some((ExifTagId::SensingMethod, "SensingMethod"@)),
        0xa300 => Some((ExifTagId::FileSource, "FileSource"@)),
        0xa301 => Some((ExifTagId::SceneType, "SceneType"@)),
        0xa302 => Some((ExifTagId::CFAPattern, "CFAPattern"@)),
        0xa401 => Some((ExifTagId::CustomRendered, "CustomRendered"@)),
        0xa402 => Some((ExifTagId::ExposureMode, "ExposureMode"@)),
        0xa403 => Some((ExifTagId::WhiteBalance, "WhiteBalance"@)),
        0xa404 => Some((ExifTagId::DigitalZoomRatio, "DigitalZoomRatio"@)),
        0xa405 => Some((ExifTagId::FOCALLENGTH_35MM, "FocalLengthIn35mmFilm"@)),
        0xa406 => Some((ExifTagId::SceneCaptureType, "SceneCaptureType"@)),
        0xa407 => Some((ExifTagId::GainControl, "GainControl"@)),
        0xa408 => Some((ExifTagId::Contrast, "Contrast"@)),
        0xa409 => Some((ExifTagId::Saturation, "Saturation"@)),
        0xa40a => Some((ExifTagId::Sharpness, "Sharpness"@)),
        0xa40b => Some((ExifTagId::DeviceSettingDescription, "DeviceSettingDescription"@)),
        0xa40c => Some((ExifTagId::SubjectDistanceRange, "SubjectDistanceRange"@)),
        0xa420 => Some((ExifTagId::ImageUniqueID, "ImageUniqueID"@)),
        0xa430 => Some((ExifTagId::CameraOwnerName, "CameraOwnerName"@)),
        0xa431 => Some((ExifTagId::BodySerialNumber, "BodySerialNumber"@)),
        0xa432 => Some((ExifTagId::LensSpecification, "LensSpecification"@)),
        0xa433 => Some((ExifTagId::LensMake, "LensMake"@)),
        0xa434 => Some((ExifTagId::LensModel, "LensModel"@)),
        0xa435 => Some((ExifTagId::LensSerialNumber, "LensSerialNumber"@)),
        0xa436 => Some((ExifTagId::ImageTitle, "ImageTitle"@)),
        0xa437 => Some((ExifTagId::Photographer, "Photographer"@)),
        0xa438 => Some((ExifTagId::ImageEditor, "ImageEditor"@)),
        0xa439 => Some((ExifTagId::CameraFirmware, "CameraFirmware"@)),
        0xa43a => Some((ExifTagId::RAWDevelopingSoftware, "RAWDevelopingSoftware"@)),
        0xa43b => Some((ExifTagId::ImageEditingSoftware, "ImageEditingSoftware"@)),
        0xa43c => Some((ExifTagId::MetadataEditingSoftware, "MetadataEditingSoftware"@)),
        0xa460 => Some((ExifTagId::CompositeImage, "CompositeImage"@)),
        0xa461 => Some((ExifTagId::SourceImageNumberOfCompositeImage, "SourceImageNumberOfCompositeImage"@)),
        0xa462 => Some((ExifTagId::SourceExposureTimesOfCompositeImage, "SourceExposureTimesOfCompositeImage"@)),
        0xa500 => Some((ExifTagId::Gamma, "Gamma"@)),
        0xffff => Some((ExifTagId::UndefinedExifTag, "UndefinedExifTag"@)),
        _ => None,
    }
}

/// The registered identity and display name of tag `id`, if any.
pub fn lookup_exif_tag(id: u16) -> (r: Option<(ExifTagId, &'static str)>)
    ensures
        r is None ==> exif_tag_info(id) is None,
        r matches Some(p) ==> exif_tag_info(id) == Some((p.0, p.1@)),
{
    match id {
        0x0001 => Some((ExifTagId::InteropIndex, "InteropIndex")),
        0x0002 => Some((ExifTagId::InteropVersion, "InteropVersion")),
        0x0100 => Some((ExifTagId::ImageWidth, "ImageWidth")),
        0x0101 => Some((ExifTagId::ImageLength, "ImageLength")),
        0x0102 => Some((ExifTagId::BitsPerSample, "BitsPerSample")),
        0x0103 => Some((ExifTagId::Compression, "Compression")),
        0x0106 => Some((ExifTagId::PhotometricInterpretation, "PhotometricInterpretation")),
        0x010a => Some((ExifTagId::FillOrder, "FillOrder")),
        0x010d => Some((ExifTagId::DocumentName, "DocumentName")),
        0x010e => Some((ExifTagId::ImageDescription, "ImageDescription")),
        0x010f => Some((ExifTagId::Make, "Make")),
        0x0110 => Some((ExifTagId::Model, "Model")),
        0x0111 => Some((ExifTagId::StripOffsets, "StripOffsets")),
        0x0112 => Some((ExifTagId::Orientation, "Orientation")),
        0x0115 => Some((ExifTagId::SamplesPerPixel, "SamplesPerPixel")),
        0x0116 => Some((ExifTagId::RowsPerStrip, "RowsPerStrip")),
        0x0117 => Some((ExifTagId::StripByteCounts, "StripByteCounts")),
        0x011a => Some((ExifTagId::XResolution, "XResolution")),
        0x011b => Some((ExifTagId::YResolution, "YResolution")),
        0x011c => Some((ExifTagId::PlanarConfiguration, "PlanarConfiguration")),
        0x0128 => Some((ExifTagId::ResolutionUnit, "ResolutionUnit")),
        0x012d => Some((ExifTagId::TransferFunction, "TransferFunction")),
        0x0131 => Some((ExifTagId::Software, "Software")),
        0x0132 => Some((ExifTagId::DateTime, "DateTime")),
        0x013b => Some((ExifTagId::Artist, "Artist")),
        0x013e => Some((ExifTagId::WhitePoint, "WhitePoint")),
        0x013f => Some((ExifTagId::PrimaryChromaticities, "PrimaryChromaticities")),
        0x0156 => Some((ExifTagId::TransferRange, "TransferRange")),
        0x0200 => Some((ExifTagId::JPEGProc, "JPEGProc")),
        0x0201 => Some((ExifTagId::ThumbnailOffset, "ThumbnailOffset")),
        0x0202 => Some((ExifTagId::ThumbnailLength, "ThumbnailLength")),
        0x0211 => Some((ExifTagId::YCbCrCoefficients, "YCbCrCoefficients")),
        0x0212 => Some((ExifTagId::YCbCrSubSampling, "YCbCrSubSampling")),
        0x0213 => Some((ExifTagId::YCbCrPositioning, "YCbCrPositioning")),
        0x0214 => Some((ExifTagId::ReferenceBlackWhite, "ReferenceBlackWhite")),
        0x1001 => Some((ExifTagId::RelatedImageWidth, "RelatedImageWidth")),
        0x1002 => Some((ExifTagId::RelatedImageLength, "RelatedImageLength")),
        0x828d => Some((ExifTagId::CFARepeatPatternDim, "CFARepeatPatternDim")),
        0x828f => Some((ExifTagId::BatteryLevel, "BatteryLevel")),
        0x8298 => Some((ExifTagId::Copyright, "Copyright")),
        0x829a => Some((ExifTagId::ExposureTime, "ExposureTime")),
        0x829d => Some((ExifTagId::FNUMBER, "FNumber")),
        0x83bb => Some((ExifTagId::IPTC_NAA, "IPTC/NAA")),
        0x8769 => Some((ExifTagId::EXIF_OFFSET, "ExifOffset")),
        0x8773 => Some((ExifTagId::InterColorProfile, "InterColorProfile")),
        0x8822 => Some((ExifTagId::EXPOSURE_PROGRAM, "ExposureProgram")),
        0x8824 => Some((ExifTagId::SpectralSensitivity, "SpectralSensitivity")),
        0x8825 => Some((ExifTagId::GPSInfo, "GPSInfo")),
        0x8827 => Some((ExifTagId::ISO_EQUIVALENT, "ISOSpeedRatings")),
        0x8828 => Some((ExifTagId::OECF, "OECF")),
        0x8830 => Some((ExifTagId::SensitivityType, "SensitivityType")),
        0x8831 => Some((ExifTagId::StandardOutputSensitivity, "StandardOutputSensitivity")),
        0x8832 => Some((ExifTagId::RecommendedExposureIndex, "RecommendedExposureIndex")),
        0x8833 => Some((ExifTagId::ISOSpeed, "ISOSpeed")),
        0x8834 => Some((ExifTagId::ISOSpeedLatitudeyyy, "ISOSpeedLatitudeyyy")),
        0x8835 => Some((ExifTagId::ISOSpeedLatitudezzz, "ISOSpeedLatitudezzz")),
        0x9000 => Some((ExifTagId::ExifVersion, "ExifVersion")),
        0x9003 => Some((ExifTagId::DateTimeOriginal, "DateTimeOriginal")),
        0x9004 => Some((ExifTagId::DateTimeDigitized, "DateTimeDigitized")),
        0x9010 => Some((ExifTagId::OffsetTime, "OffsetTime")),
        0x9011 => Some((ExifTagId::OffsetTimeOriginal, "OffsetTimeOriginal")),
        0x9012 => Some((ExifTagId::OffsetTimeDigitized, "OffsetTimeDigitized ")),
        0x9101 => Some((ExifTagId::ComponentsConfiguration, "ComponentsConfiguration")),
        0x9102 => Some((ExifTagId::CompressedBitsPerPixel, "CompressedBitsPerPixel")),
        0x9201 => Some((ExifTagId::ShutterSpeedValue, "ShutterSpeedValue")),
        0x9202 => Some((ExifTagId::ApertureValue, "ApertureValue")),
        0x9203 => Some((ExifTagId::BrightnessValue, "BrightnessValue")),
        0x9204 => Some((ExifTagId::ExposureBiasValue, "ExposureBiasValue")),
        0x9205 => Some((ExifTagId::MaxApertureValue, "MaxApertureValue")),
        0x9206 => Some((ExifTagId::SubjectDistance, "SubjectDistance")),
        0x9207 => Some((ExifTagId::MeteringMode, "MeteringMode")),
        0x9208 => Some((ExifTagId::LightSource, "LightSource")),
        0x9209 => Some((ExifTagId::Flash, "Flash")),
        0x920a => Some((ExifTagId::FocalLength, "FocalLength")),
        0x920b => Some((ExifTagId::FlashEnergy_, "FlashEnergy")),
        0x920c => Some((ExifTagId::SpatialFrequencyResponse_, "SpatialFrequencyResponse")),
        0x920e => Some((ExifTagId::FOCALPLANEXRES_, "FocalPlaneXResolution")),
        0x920f => Some((ExifTagId::FocalPlaneYResolution_, "FocalPlaneYResolution")),
        0x9210 => Some((ExifTagId::FOCALPLANEUNITS_, "FocalPlaneResolutionUnit")),
        0x9215 => Some((ExifTagId::ExposureIndex, "ExposureIndex")),
        0x9217 => Some((ExifTagId::SensingMethod_, "SensingMethod")),
        0x927c => Some((ExifTagId::MakerNote, "MakerNote")),
        0x9286 => Some((ExifTagId::UserComment, "UserComment")),
        0x9290 => Some((ExifTagId::SubSecTime, "SubSecTime")),
        0x9291 => Some((ExifTagId::SubSecTimeOriginal, "SubSecTimeOriginal")),
        0x9292 => Some((ExifTagId::SubSecTimeDigitized, "SubSecTimeDigitized")),
        0x9400 => Some((ExifTagId::Temperature, "Temperature")),
        0x9401 => Some((ExifTagId::Humidity, "Humidity")),
        0x9402 => Some((ExifTagId::Pressure, "Pressure")),
        0x9403 => Some((ExifTagId::WaterDepth, "WaterDepth")),
        0x9404 => Some((ExifTagId::Acceleration, "Acceleration")),
        0x9405 => Some((ExifTagId::CameraElevationAngle, "CameraElevationAngle")),
        0xa000 => Some((ExifTagId::FlashPixVersion, "FlashPixVersion")),
        0xa001 => Some((ExifTagId::ColorSpace, "ColorSpace")),
        0xa002 => Some((ExifTagId::PixelXDimension, "PixelXDimension")),
        0xa003 => Some((ExifTagId::PixelYDimension, "PixelYDimension")),
        0xa004 => Some((ExifTagId::RelatedAudioFile, "RelatedAudioFile")),
        0xa005 => Some((ExifTagId::INTEROP_OFFSET, "InteroperabilityOffset")),
        0xa20b => Some((ExifTagId::FlashEnergy, "FlashEnergy")),
        0xa20c => Some((ExifTagId::SpatialFrequencyResponse, "SpatialFrequencyResponse")),
        0xa20e => Some((ExifTagId::FOCALPLANEXRES, "FocalPlaneXResolution")),
        0xa20f => Some((ExifTagId::FocalPlaneYResolution, "FocalPlaneYResolution")),
        0xa210 => Some((ExifTagId::FOCALPLANEUNITS, "FocalPlaneResolutionUnit")),
        0xa214 => Some((ExifTagId::SubjectLocation, "SubjectLocation")),
        0xa215 => Some((ExifTagId::EXPOSURE_INDEX, "ExposureIndex")),
        0xa217 => Some((ExifTagId::SensingMethod, "SensingMethod")),
        0xa300 => Some((ExifTagId::FileSource, "FileSource")),
        0xa301 => Some((ExifTagId::SceneType, "SceneType")),
        0xa302 => Some((ExifTagId::CFAPattern, "CFAPattern")),
        0xa401 => Some((ExifTagId::CustomRendered, "CustomRendered")),
        0xa402 => Some((ExifTagId::ExposureMode, "ExposureMode")),
        0xa403 => Some((ExifTagId::WhiteBalance, "WhiteBalance")),
        0xa404 => Some((ExifTagId::DigitalZoomRatio, "DigitalZoomRatio")),
        0xa405 => Some((ExifTagId::FOCALLENGTH_35MM, "FocalLengthIn35mmFilm")),
        0xa406 => Some((ExifTagId::SceneCaptureType, "SceneCaptureType")),
        0xa407 => Some((ExifTagId::GainControl, "GainControl")),
        0xa408 => Some((ExifTagId::Contrast, "Contrast")),
        0xa409 => Some((ExifTagId::Saturation, "Saturation")),
        0xa40a => Some((ExifTagId::Sharpness, "Sharpness")),
        0xa40b => Some((ExifTagId::DeviceSettingDescription, "DeviceSettingDescription")),
        0xa40c => Some((ExifTagId::SubjectDistanceRange, "SubjectDistanceRange")),
        0xa420 => Some((ExifTagId::ImageUniqueID, "ImageUniqueID")),
        0xa430 => Some((ExifTagId::CameraOwnerName, "CameraOwnerName")),
        0xa431 => Some((ExifTagId::BodySerialNumber, "BodySerialNumber")),
        0xa432 => Some((ExifTagId::LensSpecification, "LensSpecification")),
        0xa433 => Some((ExifTagId::LensMake, "LensMake")),
        0xa434 => Some((ExifTagId::LensModel, "LensModel")),
        0xa435 => Some((ExifTagId::LensSerialNumber, "LensSerialNumber")),
        0xa436 => Some((ExifTagId::ImageTitle, "ImageTitle")),
        0xa437 => Some((ExifTagId::Photographer, "Photographer")),
        0xa438 => Some((ExifTagId::ImageEditor, "ImageEditor")),
        0xa439 => Some((ExifTagId::CameraFirmware, "CameraFirmware")),
        0xa43a => Some((ExifTagId::RAWDevelopingSoftware, "RAWDevelopingSoftware")),
        0xa43b => Some((ExifTagId::ImageEditingSoftware, "ImageEditingSoftware")),
        0xa43c => Some((ExifTagId::MetadataEditingSoftware, "MetadataEditingSoftware")),
        0xa460 => Some((ExifTagId::CompositeImage, "CompositeImage")),
        0xa461 => Some((ExifTagId::SourceImageNumberOfCompositeImage, "SourceImageNumberOfCompositeImage")),
        0xa462 => Some((ExifTagId::SourceExposureTimesOfCompositeImage, "SourceExposureTimesOfCompositeImage")),
        0xa500 => Some((ExifTagId::Gamma, "Gamma")),
        0xffff => Some((ExifTagId::UndefinedExifTag, "UndefinedExifTag")),
        _ => None,
    }
}

/// Registry of the GPS tags: identity and display name by id.
pub open spec fn gps_tag_info(id: u16) -> Option<(GpsTagId, Seq<char>)> {
    match id {
        0x0000 => Some((GpsTagId::VersionID, "GPSVersionID"@)),
        0x0001 => Some((GpsTagId::LatitudeRef, "GPSLatitudeRef"@)),
        0x0002 => Some((GpsTagId::Latitude, "GPSLatitude"@)),
        0x0003 => Some((GpsTagId::LongitudeRef, "GPSLongitudeRef"@)),
        0x0004 => Some((GpsTagId::Longitude, "GPSLongitude"@)),
        0x0005 => Some((GpsTagId::AltitudeRef, "GPSAltitudeRef"@)),
        0x0006 => Some((GpsTagId::Altitude, "GPSAltitude"@)),
        0x0007 => Some((GpsTagId::TimeStamp, "GPSTimeStamp"@)),
        0x0008 => Some((GpsTagId::Satelites, "GPSSatelites"@)),
        0x0009 => Some((GpsTagId::Status, "GPSStatus"@)),
        0x000a => Some((GpsTagId::MeasureMode, "GPSMeasureMode"@)),
        0x000b => Some((GpsTagId::DOP, "GPSDOP"@)),
        0x000c => Some((GpsTagId::SpeedRef, "GPSSpeedRef"@)),
        0x000d => Some((GpsTagId::Speed, "GPSSpeed"@)),
        0x000e => Some((GpsTagId::TrackRef, "GPSTrackRef"@)),
        0x000f => Some((GpsTagId::Track, "GPSTrack"@)),
        0x0010 => Some((GpsTagId::ImgDirectionRef, "GPSImgDirectionRef"@)),
        0x0011 => Some((GpsTagId::ImgDirection, "GPSImgDirection"@)),
        0x0012 => Some((GpsTagId::MapDatum, "GPSMapDatum"@)),
        0x0013 => Some((GpsTagId::DestLatitudeRef, "GPSDestLatitudeRef"@)),
        0x0014 => Some((GpsTagId::DestLatitude, "GPSDestLatitude"@)),
        0x0015 => Some((GpsTagId::DestLongitudeRef, "GPSDestLongitudeRef"@)),
        0x0016 => Some((GpsTagId::DestLongitude, "GPSDestLongitude"@)),
        0x0017 => Some((GpsTagId::DestBearingRef, "GPSDestBearingRef"@)),
        0x0018 => Some((GpsTagId::DestBearing, "GPSDestBearing"@)),
        0x0019 => Some((GpsTagId::DestDistanceRef, "GPSDestDistanceRef"@)),
        0x001a => Some((GpsTagId::DestDistance, "GPSDestDistance"@)),
        0x001b => Some((GpsTagId::ProcessingMethod, "GPSProcessingMethod"@)),
        0x001c => Some((GpsTagId::AreaInformation, "GPSAreaInformation"@)),
        0x001d => Some((GpsTagId::DateStamp, "GPSDateStamp"@)),
        0x001e => Some((GpsTagId::Differential, "GPSDifferential"@)),
        0x001f => Some((GpsTagId::HPositioningError, "GPSHPositioningError"@)),
        0xffff => Some((GpsTagId::UndefinedGpsTag, "GPSUndefinedGpsTag"@)),
        _ => None,
    }
}

/// The registered identity and display name of tag `id`, if any.
pub fn lookup_gps_tag(id: u16) -> (r: Option<(GpsTagId, &'static str)>)
    ensures
        r is None ==> gps_tag_info(id) is None,
        r matches Some(p) ==> gps_tag_info(id) == Some((p.0, p.1@)),
{
    match id {
        0x0000 => Some((GpsTagId::VersionID, "GPSVersionID")),
        0x0001 => Some((GpsTagId::LatitudeRef, "GPSLatitudeRef")),
        0x0002 => Some((GpsTagId::Latitude, "GPSLatitude")),
        0x0003 => Some((GpsTagId::LongitudeRef, "GPSLongitudeRef")),
        0x0004 => Some((GpsTagId::Longitude, "GPSLongitude")),
        0x0005 => Some((GpsTagId::AltitudeRef, "GPSAltitudeRef")),
        0x0006 => Some((GpsTagId::Altitude, "GPSAltitude")),
        0x0007 => Some((GpsTagId::TimeStamp, "GPSTimeStamp")),
        0x0008 => Some((GpsTagId::Satelites, "GPSSatelites")),
        0x0009 => Some((GpsTagId::Status, "GPSStatus")),
        0x000a => Some((GpsTagId::MeasureMode, "GPSMeasureMode")),
        0x000b => Some((GpsTagId::DOP, "GPSDOP")),
        0x000c => Some((GpsTagId::SpeedRef, "GPSSpeedRef")),
        0x000d => Some((GpsTagId::Speed, "GPSSpeed")),
        0x000e => Some((GpsTagId::TrackRef, "GPSTrackRef")),
        0x000f => Some((GpsTagId::Track, "GPSTrack")),
        0x0010 => Some((GpsTagId::ImgDirectionRef, "GPSImgDirectionRef")),
        0x0011 => Some((GpsTagId::ImgDirection, "GPSImgDirection")),
        0x0012 => Some((GpsTagId::MapDatum, "GPSMapDatum")),
        0x0013 => Some((GpsTagId::DestLatitudeRef, "GPSDestLatitudeRef")),
        0x0014 => Some((GpsTagId::DestLatitude, "GPSDestLatitude")),
        0x0015 => Some((GpsTagId::DestLongitudeRef, "GPSDestLongitudeRef")),
        0x0016 => Some((GpsTagId::DestLongitude, "GPSDestLongitude")),
        0x0017 => Some((GpsTagId::DestBearingRef, "GPSDestBearingRef")),
        0x0018 => Some((GpsTagId::DestBearing, "GPSDestBearing")),
        0x0019 => Some((GpsTagId::DestDistanceRef, "GPSDestDistanceRef")),
        0x001a => Some((GpsTagId::DestDistance, "GPSDestDistance")),
        0x001b => Some((GpsTagId::ProcessingMethod, "GPSProcessingMethod")),
        0x001c => Some((GpsTagId::AreaInformation, "GPSAreaInformation")),
        0x001d => Some((GpsTagId::DateStamp, "GPSDateStamp")),
        0x001e => Some((GpsTagId::Differential, "GPSDifferential")),
        0x001f => Some((GpsTagId::HPositioningError, "GPSHPositioningError")),
        0xffff => Some((GpsTagId::UndefinedGpsTag, "GPSUndefinedGpsTag")),
        _ => None,
    }
}

/// Descriptor of a primary or Exif tag.
#[derive(Debug, Clone)]
pub struct ExifTag {
    pub id: u16,
    pub enu: ExifTagId,
    pub name: String,
}

/// Descriptor of a GPS tag.
#[derive(Debug, Clone)]
pub struct GpsTag {
    pub id: u16,
    pub enu: GpsTagId,
    pub name: String,
}

/// Name given to a tag that no registry knows: an underscore and the id in decimal.
pub open spec fn undefined_tag_name(id: u16) -> Seq<char> {
    seq!['_'] + decimal(id as nat)
}

/// Identity of primary or Exif tag `id`, with the fallback for unknown ids.
pub open spec fn exif_tag_enu(id: u16) -> ExifTagId {
    match exif_tag_info(id) {
        Some(p) => p.0,
        None => ExifTagId::UndefinedExifTag,
    }
}

/// Display name of primary or Exif tag `id`, with the fallback for unknown ids.
pub open spec fn exif_tag_name(id: u16) -> Seq<char> {
    match exif_tag_info(id) {
        Some(p) => p.1,
        None => undefined_tag_name(id),
    }
}

/// Identity of GPS tag `id`, with the fallback for unknown ids.
pub open spec fn gps_tag_enu(id: u16) -> GpsTagId {
    match gps_tag_info(id) {
        Some(p) => p.0,
        None => GpsTagId::UndefinedGpsTag,
    }
}

/// Display name of GPS tag `id`, with the fallback for unknown ids.
pub open spec fn gps_tag_name(id: u16) -> Seq<char> {
    match gps_tag_info(id) {
        Some(p) => p.1,
        None => undefined_tag_name(id),
    }
}

fn undefined_name(id: u16) -> (r: String)
    ensures
        r@ == undefined_tag_name(id),
{
    let mut s = String::from_str("_");
    proof {
        reveal_strlit("_");
    }
    let d = decimal_string(id as u64);
    s.append(d.as_str());
    s
}

/// Resolves a primary or Exif tag id; never fails.
pub fn resolve_exif_tag(id: u16) -> (r: ExifTag)
    ensures
        r.id == id,
        r.enu == exif_tag_enu(id),
        r.name@ == exif_tag_name(id),
{
    match lookup_exif_tag(id) {
        Some((enu, name)) => ExifTag { id, enu, name: String::from_str(name) },
        None => ExifTag { id, enu: ExifTagId::UndefinedExifTag, name: undefined_name(id) },
    }
}

/// Resolves a GPS tag id; never fails.
pub fn resolve_gps_tag(id: u16) -> (r: GpsTag)
    ensures
        r.id == id,
        r.enu == gps_tag_enu(id),
        r.name@ == gps_tag_name(id),
{
    match lookup_gps_tag(id) {
        Some((enu, name)) => GpsTag { id, enu, name: String::from_str(name) },
        None => GpsTag { id, enu: GpsTagId::UndefinedGpsTag, name: undefined_name(id) },
    }
}

} // verus!
