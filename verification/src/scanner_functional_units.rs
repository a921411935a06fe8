//! Scanner functional unit value types: unit kinds, measurement units, bit
//! depths, color formats, pixel types, document sizes, unit states and
//! feature kinds, each with its exact wire encoding.

use vstd::prelude::*;

verus! {

/// Kind of scanner functional unit: the sub-mode of a scanner with its own
/// geometry and feature set.
#[derive(Clone, Copy, Debug, PartialEq, Eq, Structural)]
pub enum ICScannerFunctionalUnitType {
    /// Flatbed functional unit.
    ICScannerFunctionalUnitTypeFlatbed,
    /// Transparency functional unit for scanning positives.
    ICScannerFunctionalUnitTypePositiveTransparency,
    /// Transparency functional unit for scanning negatives.
    ICScannerFunctionalUnitTypeNegativeTransparency,
    /// Document feeder functional unit.
    ICScannerFunctionalUnitTypeDocumentFeeder,
}

impl ICScannerFunctionalUnitType {
    /// The numeric value this variant is carried as across the runtime
    /// boundary.
    pub open spec fn spec_raw(self) -> int {
        match self {
            ICScannerFunctionalUnitType::ICScannerFunctionalUnitTypeFlatbed => 0,
            ICScannerFunctionalUnitType::ICScannerFunctionalUnitTypePositiveTransparency => 1,
            ICScannerFunctionalUnitType::ICScannerFunctionalUnitTypeNegativeTransparency => 2,
            ICScannerFunctionalUnitType::ICScannerFunctionalUnitTypeDocumentFeeder => 3,
        }
    }

    /// Encode this value as its numeric wire value.
    pub fn to_raw(self) -> (r: u64)
        ensures
            r == self.spec_raw(),
    {
        match self {
            ICScannerFunctionalUnitType::ICScannerFunctionalUnitTypeFlatbed => 0,
            ICScannerFunctionalUnitType::ICScannerFunctionalUnitTypePositiveTransparency => 1,
            ICScannerFunctionalUnitType::ICScannerFunctionalUnitTypeNegativeTransparency => 2,
            ICScannerFunctionalUnitType::ICScannerFunctionalUnitTypeDocumentFeeder => 3,
        }
    }

    /// Decode a numeric wire value: returns the unique variant carried
    /// as `raw`, and `None` exactly when no variant is.
    pub fn from_raw(raw: u64) -> (r: Option<Self>)
        ensures
            r matches Some(v) ==> v.spec_raw() == raw,
            r is None ==> forall|v: Self| v.spec_raw() != raw,
    {
        match raw {
            0 => Some(ICScannerFunctionalUnitType::ICScannerFunctionalUnitTypeFlatbed),
            1 => Some(ICScannerFunctionalUnitType::ICScannerFunctionalUnitTypePositiveTransparency),
            2 => Some(ICScannerFunctionalUnitType::ICScannerFunctionalUnitTypeNegativeTransparency),
            3 => Some(ICScannerFunctionalUnitType::ICScannerFunctionalUnitTypeDocumentFeeder),
            _ => None,
        }
    }

    /// Distinct variants have distinct wire values, so decoding a wire
    /// value determines the variant uniquely.
    pub proof fn lemma_raw_injective(a: Self, b: Self)
        ensures
            a.spec_raw() == b.spec_raw() ==> a == b,
    {
    }
}

/// Unit of measurement used by the scanner.
#[derive(Clone, Copy, Debug, PartialEq, Eq, Structural)]
pub enum ICScannerMeasurementUnit {
    ICScannerMeasurementUnitInches,
    ICScannerMeasurementUnitCentimeters,
    ICScannerMeasurementUnitPicas,
    ICScannerMeasurementUnitPoints,
    ICScannerMeasurementUnitTwips,
    ICScannerMeasurementUnitPixels,
}

impl ICScannerMeasurementUnit {
    /// The numeric value this variant is carried as across the runtime
    /// boundary.
    pub open spec fn spec_raw(self) -> int {
        match self {
            ICScannerMeasurementUnit::ICScannerMeasurementUnitInches => 0,
            ICScannerMeasurementUnit::ICScannerMeasurementUnitCentimeters => 1,
            ICScannerMeasurementUnit::ICScannerMeasurementUnitPicas => 2,
            ICScannerMeasurementUnit::ICScannerMeasurementUnitPoints => 3,
            ICScannerMeasurementUnit::ICScannerMeasurementUnitTwips => 4,
            ICScannerMeasurementUnit::ICScannerMeasurementUnitPixels => 5,
        }
    }

    /// Encode this value as its numeric wire value.
    pub fn to_raw(self) -> (r: u64)
        ensures
            r == self.spec_raw(),
    {
        match self {
            ICScannerMeasurementUnit::ICScannerMeasurementUnitInches => 0,
            ICScannerMeasurementUnit::ICScannerMeasurementUnitCentimeters => 1,
            ICScannerMeasurementUnit::ICScannerMeasurementUnitPicas => 2,
            ICScannerMeasurementUnit::ICScannerMeasurementUnitPoints => 3,
            ICScannerMeasurementUnit::ICScannerMeasurementUnitTwips => 4,
            ICScannerMeasurementUnit::ICScannerMeasurementUnitPixels => 5,
        }
    }

    /// Decode a numeric wire value: returns the unique variant carried
    /// as `raw`, and `None` exactly when no variant is.
    pub fn from_raw(raw: u64) -> (r: Option<Self>)
        ensures
            r matches Some(v) ==> v.spec_raw() == raw,
            r is None ==> forall|v: Self| v.spec_raw() != raw,
    {
        match raw {
            0 => Some(ICScannerMeasurementUnit::ICScannerMeasurementUnitInches),
            1 => Some(ICScannerMeasurementUnit::ICScannerMeasurementUnitCentimeters),
            2 => Some(ICScannerMeasurementUnit::ICScannerMeasurementUnitPicas),
            3 => Some(ICScannerMeasurementUnit::ICScannerMeasurementUnitPoints),
            4 => Some(ICScannerMeasurementUnit::ICScannerMeasurementUnitTwips),
            5 => Some(ICScannerMeasurementUnit::ICScannerMeasurementUnitPixels),
            _ => None,
        }
    }

    /// Distinct variants have distinct wire values, so decoding a wire
    /// value determines the variant uniquely.
    pub proof fn lemma_raw_injective(a: Self, b: Self)
        ensures
            a.spec_raw() == b.spec_raw() ==> a == b,
    {
    }
}

/// Bits per channel in the scanned image.
///
/// The wire value is the bit count itself.
#[derive(Clone, Copy, Debug, PartialEq, Eq, Structural)]
pub enum ICScannerBitDepth {
    ICScannerBitDepth1Bit,
    ICScannerBitDepth8Bits,
    ICScannerBitDepth16Bits,
}

impl ICScannerBitDepth {
    /// The numeric value this variant is carried as across the runtime
    /// boundary.
    pub open spec fn spec_raw(self) -> int {
        match self {
            ICScannerBitDepth::ICScannerBitDepth1Bit => 1,
            ICScannerBitDepth::ICScannerBitDepth8Bits => 8,
            ICScannerBitDepth::ICScannerBitDepth16Bits => 16,
        }
    }

    /// Encode this value as its numeric wire value.
    pub fn to_raw(self) -> (r: u64)
        ensures
            r == self.spec_raw(),
    {
        match self {
            ICScannerBitDepth::ICScannerBitDepth1Bit => 1,
            ICScannerBitDepth::ICScannerBitDepth8Bits => 8,
            ICScannerBitDepth::ICScannerBitDepth16Bits => 16,
        }
    }

    /// Decode a numeric wire value: returns the unique variant carried
    /// as `raw`, and `None` exactly when no variant is.
    pub fn from_raw(raw: u64) -> (r: Option<Self>)
        ensures
            r matches Some(v) ==> v.spec_raw() == raw,
            r is None ==> forall|v: Self| v.spec_raw() != raw,
    {
        match raw {
            1 => Some(ICScannerBitDepth::ICScannerBitDepth1Bit),
            8 => Some(ICScannerBitDepth::ICScannerBitDepth8Bits),
            16 => Some(ICScannerBitDepth::ICScannerBitDepth16Bits),
            _ => None,
        }
    }

    /// Distinct variants have distinct wire values, so decoding a wire
    /// value determines the variant uniquely.
    pub proof fn lemma_raw_injective(a: Self, b: Self)
        ensures
            a.spec_raw() == b.spec_raw() ==> a == b,
    {
    }
}

/// Layout of multi-channel color data in a transfer.
#[derive(Clone, Copy, Debug, PartialEq, Eq, Structural)]
pub enum ICScannerColorDataFormatType {
    /// Data from all channels are interleaved.
    ICScannerColorDataFormatTypeChunky,
    /// Each channel is transferred sequentially.
    ICScannerColorDataFormatTypePlanar,
}

impl ICScannerColorDataFormatType {
    /// The numeric value this variant is carried as across the runtime
    /// boundary.
    pub open spec fn spec_raw(self) -> int {
        match self {
            ICScannerColorDataFormatType::ICScannerColorDataFormatTypeChunky => 0,
            ICScannerColorDataFormatType::ICScannerColorDataFormatTypePlanar => 1,
        }
    }

    /// Encode this value as its numeric wire value.
    pub fn to_raw(self) -> (r: u64)
        ensures
            r == self.spec_raw(),
    {
        match self {
            ICScannerColorDataFormatType::ICScannerColorDataFormatTypeChunky => 0,
            ICScannerColorDataFormatType::ICScannerColorDataFormatTypePlanar => 1,
        }
    }

    /// Decode a numeric wire value: returns the unique variant carried
    /// as `raw`, and `None` exactly when no variant is.
    pub fn from_raw(raw: u64) -> (r: Option<Self>)
        ensures
            r matches Some(v) ==> v.spec_raw() == raw,
            r is None ==> forall|v: Self| v.spec_raw() != raw,
    {
        match raw {
            0 => Some(ICScannerColorDataFormatType::ICScannerColorDataFormatTypeChunky),
            1 => Some(ICScannerColorDataFormatType::ICScannerColorDataFormatTypePlanar),
            _ => None,
        }
    }

    /// Distinct variants have distinct wire values, so decoding a wire
    /// value determines the variant uniquely.
    pub proof fn lemma_raw_injective(a: Self, b: Self)
        ensures
            a.spec_raw() == b.spec_raw() ==> a == b,
    {
    }
}

/// Pixel data type of a scan.
#[derive(Clone, Copy, Debug, PartialEq, Eq, Structural)]
pub enum ICScannerPixelDataType {
    /// Monochrome 1 bit pixel image.
    ICScannerPixelDataTypeBW,
    /// 8 bit pixel Gray color space.
    ICScannerPixelDataTypeGray,
    /// Color image RGB color space.
    ICScannerPixelDataTypeRGB,
    /// Indexed color image.
    ICScannerPixelDataTypePalette,
    /// Color image in CMY color space.
    ICScannerPixelDataTypeCMY,
    /// Color image in CMYK color space.
    ICScannerPixelDataTypeCMYK,
    /// Color image in YUV color space.
    ICScannerPixelDataTypeYUV,
    /// Color image in YUVK color space.
    ICScannerPixelDataTypeYUVK,
    /// Color image in CIEXYZ color space.
    ICScannerPixelDataTypeCIEXYZ,
}

impl ICScannerPixelDataType {
    /// The numeric value this variant is carried as across the runtime
    /// boundary.
    pub open spec fn spec_raw(self) -> int {
        match self {
            ICScannerPixelDataType::ICScannerPixelDataTypeBW => 0,
            ICScannerPixelDataType::ICScannerPixelDataTypeGray => 1,
            ICScannerPixelDataType::ICScannerPixelDataTypeRGB => 2,
            ICScannerPixelDataType::ICScannerPixelDataTypePalette => 3,
            ICScannerPixelDataType::ICScannerPixelDataTypeCMY => 4,
            ICScannerPixelDataType::ICScannerPixelDataTypeCMYK => 5,
            ICScannerPixelDataType::ICScannerPixelDataTypeYUV => 6,
            ICScannerPixelDataType::ICScannerPixelDataTypeYUVK => 7,
            ICScannerPixelDataType::ICScannerPixelDataTypeCIEXYZ => 8,
        }
    }

    /// Encode this value as its numeric wire value.
    pub fn to_raw(self) -> (r: u64)
        ensures
            r == self.spec_raw(),
    {
        match self {
            ICScannerPixelDataType::ICScannerPixelDataTypeBW => 0,
            ICScannerPixelDataType::ICScannerPixelDataTypeGray => 1,
            ICScannerPixelDataType::ICScannerPixelDataTypeRGB => 2,
            ICScannerPixelDataType::ICScannerPixelDataTypePalette => 3,
            ICScannerPixelDataType::ICScannerPixelDataTypeCMY => 4,
            ICScannerPixelDataType::ICScannerPixelDataTypeCMYK => 5,
            ICScannerPixelDataType::ICScannerPixelDataTypeYUV => 6,
            ICScannerPixelDataType::ICScannerPixelDataTypeYUVK => 7,
            ICScannerPixelDataType::ICScannerPixelDataTypeCIEXYZ => 8,
        }
    }

    /// Decode a numeric wire value: returns the unique variant carried
    /// as `raw`, and `None` exactly when no variant is.
    pub fn from_raw(raw: u64) -> (r: Option<Self>)
        ensures
            r matches Some(v) ==> v.spec_raw() == raw,
            r is None ==> forall|v: Self| v.spec_raw() != raw,
    {
        match raw {
            0 => Some(ICScannerPixelDataType::ICScannerPixelDataTypeBW),
            1 => Some(ICScannerPixelDataType::ICScannerPixelDataTypeGray),
            2 => Some(ICScannerPixelDataType::ICScannerPixelDataTypeRGB),
            3 => Some(ICScannerPixelDataType::ICScannerPixelDataTypePalette),
            4 => Some(ICScannerPixelDataType::ICScannerPixelDataTypeCMY),
            5 => Some(ICScannerPixelDataType::ICScannerPixelDataTypeCMYK),
            6 => Some(ICScannerPixelDataType::ICScannerPixelDataTypeYUV),
            7 => Some(ICScannerPixelDataType::ICScannerPixelDataTypeYUVK),
            8 => Some(ICScannerPixelDataType::ICScannerPixelDataTypeCIEXYZ),
            _ => None,
        }
    }

    /// Distinct variants have distinct wire values, so decoding a wire
    /// value determines the variant uniquely.
    pub proof fn lemma_raw_injective(a: Self, b: Self)
        ensures
            a.spec_raw() == b.spec_raw() ==> a == b,
    {
    }
}

/// Document size type of the medium being scanned.
#[derive(Clone, Copy, Debug, PartialEq, Eq, Structural)]
pub enum ICScannerDocumentType {
    ICScannerDocumentTypeDefault,
    ICScannerDocumentTypeA4,
    ICScannerDocumentTypeB5,
    ICScannerDocumentTypeUSLetter,
    ICScannerDocumentTypeUSLegal,
    ICScannerDocumentTypeA5,
    ICScannerDocumentTypeISOB4,
    ICScannerDocumentTypeISOB6,
    ICScannerDocumentTypeUSLedger,
    ICScannerDocumentTypeUSExecutive,
    ICScannerDocumentTypeA3,
    ICScannerDocumentTypeISOB3,
    ICScannerDocumentTypeA6,
    ICScannerDocumentTypeC4,
    ICScannerDocumentTypeC5,
    ICScannerDocumentTypeC6,
    ICScannerDocumentType4A0,
    ICScannerDocumentType2A0,
    ICScannerDocumentTypeA0,
    ICScannerDocumentTypeA1,
    ICScannerDocumentTypeA2,
    ICScannerDocumentTypeA7,
    ICScannerDocumentTypeA8,
    ICScannerDocumentTypeA9,
    ICScannerDocumentType10,
    ICScannerDocumentTypeISOB0,
    ICScannerDocumentTypeISOB1,
    ICScannerDocumentTypeISOB2,
    ICScannerDocumentTypeISOB5,
    ICScannerDocumentTypeISOB7,
    ICScannerDocumentTypeISOB8,
    ICScannerDocumentTypeISOB9,
    ICScannerDocumentTypeISOB10,
    ICScannerDocumentTypeJISB0,
    ICScannerDocumentTypeJISB1,
    ICScannerDocumentTypeJISB2,
    ICScannerDocumentTypeJISB3,
    ICScannerDocumentTypeJISB4,
    ICScannerDocumentTypeJISB6,
    ICScannerDocumentTypeJISB7,
    ICScannerDocumentTypeJISB8,
    ICScannerDocumentTypeJISB9,
    ICScannerDocumentTypeJISB10,
    ICScannerDocumentTypeC0,
    ICScannerDocumentTypeC1,
    ICScannerDocumentTypeC2,
    ICScannerDocumentTypeC3,
    ICScannerDocumentTypeC7,
    ICScannerDocumentTypeC8,
    ICScannerDocumentTypeC9,
    ICScannerDocumentTypeC10,
    ICScannerDocumentTypeUSStatement,
    ICScannerDocumentTypeBusinessCard,
    ICScannerDocumentTypeE,
    ICScannerDocumentType3R,
    ICScannerDocumentType4R,
    ICScannerDocumentType5R,
    ICScannerDocumentType6R,
    ICScannerDocumentType8R,
    ICScannerDocumentTypeS8R,
    ICScannerDocumentType10R,
    ICScannerDocumentTypeS10R,
    ICScannerDocumentType11R,
    ICScannerDocumentType12R,
    ICScannerDocumentTypeS12R,
    ICScannerDocumentType110,
    ICScannerDocumentTypeAPSH,
    ICScannerDocumentTypeAPSC,
    ICScannerDocumentTypeAPSP,
    ICScannerDocumentType135,
    ICScannerDocumentTypeMF,
    ICScannerDocumentTypeLF,
}

impl ICScannerDocumentType {
    /// The numeric value this variant is carried as across the runtime
    /// boundary.
    pub open spec fn spec_raw(self) -> int {
        match self {
            ICScannerDocumentType::ICScannerDocumentTypeDefault => 0,
            ICScannerDocumentType::ICScannerDocumentTypeA4 => 1,
            ICScannerDocumentType::ICScannerDocumentTypeB5 => 2,
            ICScannerDocumentType::ICScannerDocumentTypeUSLetter => 3,
            ICScannerDocumentType::ICScannerDocumentTypeUSLegal => 4,
            ICScannerDocumentType::ICScannerDocumentTypeA5 => 5,
            ICScannerDocumentType::ICScannerDocumentTypeISOB4 => 6,
            ICScannerDocumentType::ICScannerDocumentTypeISOB6 => 7,
            ICScannerDocumentType::ICScannerDocumentTypeUSLedger => 9,
            ICScannerDocumentType::ICScannerDocumentTypeUSExecutive => 10,
            ICScannerDocumentType::ICScannerDocumentTypeA3 => 11,
            ICScannerDocumentType::ICScannerDocumentTypeISOB3 => 12,
            ICScannerDocumentType::ICScannerDocumentTypeA6 => 13,
            ICScannerDocumentType::ICScannerDocumentTypeC4 => 14,
            ICScannerDocumentType::ICScannerDocumentTypeC5 => 15,
            ICScannerDocumentType::ICScannerDocumentTypeC6 => 16,
            ICScannerDocumentType::ICScannerDocumentType4A0 => 17,
            ICScannerDocumentType::ICScannerDocumentType2A0 => 18,
            ICScannerDocumentType::ICScannerDocumentTypeA0 => 19,
            ICScannerDocumentType::ICScannerDocumentTypeA1 => 20,
            ICScannerDocumentType::ICScannerDocumentTypeA2 => 21,
            ICScannerDocumentType::ICScannerDocumentTypeA7 => 22,
            ICScannerDocumentType::ICScannerDocumentTypeA8 => 23,
            ICScannerDocumentType::ICScannerDocumentTypeA9 => 24,
            ICScannerDocumentType::ICScannerDocumentType10 => 25,
            ICScannerDocumentType::ICScannerDocumentTypeISOB0 => 26,
            ICScannerDocumentType::ICScannerDocumentTypeISOB1 => 27,
            ICScannerDocumentType::ICScannerDocumentTypeISOB2 => 28,
            ICScannerDocumentType::ICScannerDocumentTypeISOB5 => 29,
            ICScannerDocumentType::ICScannerDocumentTypeISOB7 => 30,
            ICScannerDocumentType::ICScannerDocumentTypeISOB8 => 31,
            ICScannerDocumentType::ICScannerDocumentTypeISOB9 => 32,
            ICScannerDocumentType::ICScannerDocumentTypeISOB10 => 33,
            ICScannerDocumentType::ICScannerDocumentTypeJISB0 => 34,
            ICScannerDocumentType::ICScannerDocumentTypeJISB1 => 35,
            ICScannerDocumentType::ICScannerDocumentTypeJISB2 => 36,
            ICScannerDocumentType::ICScannerDocumentTypeJISB3 => 37,
            ICScannerDocumentType::ICScannerDocumentTypeJISB4 => 38,
            ICScannerDocumentType::ICScannerDocumentTypeJISB6 => 39,
            ICScannerDocumentType::ICScannerDocumentTypeJISB7 => 40,
            ICScannerDocumentType::ICScannerDocumentTypeJISB8 => 41,
            ICScannerDocumentType::ICScannerDocumentTypeJISB9 => 42,
            ICScannerDocumentType::ICScannerDocumentTypeJISB10 => 43,
            ICScannerDocumentType::ICScannerDocumentTypeC0 => 44,
            ICScannerDocumentType::ICScannerDocumentTypeC1 => 45,
            ICScannerDocumentType::ICScannerDocumentTypeC2 => 46,
            ICScannerDocumentType::ICScannerDocumentTypeC3 => 47,
            ICScannerDocumentType::ICScannerDocumentTypeC7 => 48,
            ICScannerDocumentType::ICScannerDocumentTypeC8 => 49,
            ICScannerDocumentType::ICScannerDocumentTypeC9 => 50,
            ICScannerDocumentType::ICScannerDocumentTypeC10 => 51,
            ICScannerDocumentType::ICScannerDocumentTypeUSStatement => 52,
            ICScannerDocumentType::ICScannerDocumentTypeBusinessCard => 53,
            ICScannerDocumentType::ICScannerDocumentTypeE => 60,
            ICScannerDocumentType::ICScannerDocumentType3R => 61,
            ICScannerDocumentType::ICScannerDocumentType4R => 62,
            ICScannerDocumentType::ICScannerDocumentType5R => 63,
            ICScannerDocumentType::ICScannerDocumentType6R => 64,
            ICScannerDocumentType::ICScannerDocumentType8R => 65,
            ICScannerDocumentType::ICScannerDocumentTypeS8R => 66,
            ICScannerDocumentType::ICScannerDocumentType10R => 67,
            ICScannerDocumentType::ICScannerDocumentTypeS10R => 68,
            ICScannerDocumentType::ICScannerDocumentType11R => 69,
            ICScannerDocumentType::ICScannerDocumentType12R => 70,
            ICScannerDocumentType::ICScannerDocumentTypeS12R => 71,
            ICScannerDocumentType::ICScannerDocumentType110 => 72,
            ICScannerDocumentType::ICScannerDocumentTypeAPSH => 73,
            ICScannerDocumentType::ICScannerDocumentTypeAPSC => 74,
            ICScannerDocumentType::ICScannerDocumentTypeAPSP => 75,
            ICScannerDocumentType::ICScannerDocumentType135 => 76,
            ICScannerDocumentType::ICScannerDocumentTypeMF => 77,
            ICScannerDocumentType::ICScannerDocumentTypeLF => 78,
        }
    }

    /// Encode this value as its numeric wire value.
    pub fn to_raw(self) -> (r: u64)
        ensures
            r == self.spec_raw(),
    {
        match self {
            ICScannerDocumentType::ICScannerDocumentTypeDefault => 0,
            ICScannerDocumentType::ICScannerDocumentTypeA4 => 1,
            ICScannerDocumentType::ICScannerDocumentTypeB5 => 2,
            ICScannerDocumentType::ICScannerDocumentTypeUSLetter => 3,
            ICScannerDocumentType::ICScannerDocumentTypeUSLegal => 4,
            ICScannerDocumentType::ICScannerDocumentTypeA5 => 5,
            ICScannerDocumentType::ICScannerDocumentTypeISOB4 => 6,
            ICScannerDocumentType::ICScannerDocumentTypeISOB6 => 7,
            ICScannerDocumentType::ICScannerDocumentTypeUSLedger => 9,
            ICScannerDocumentType::ICScannerDocumentTypeUSExecutive => 10,
            ICScannerDocumentType::ICScannerDocumentTypeA3 => 11,
            ICScannerDocumentType::ICScannerDocumentTypeISOB3 => 12,
            ICScannerDocumentType::ICScannerDocumentTypeA6 => 13,
            ICScannerDocumentType::ICScannerDocumentTypeC4 => 14,
            ICScannerDocumentType::ICScannerDocumentTypeC5 => 15,
            ICScannerDocumentType::ICScannerDocumentTypeC6 => 16,
            ICScannerDocumentType::ICScannerDocumentType4A0 => 17,
            ICScannerDocumentType::ICScannerDocumentType2A0 => 18,
            ICScannerDocumentType::ICScannerDocumentTypeA0 => 19,
            ICScannerDocumentType::ICScannerDocumentTypeA1 => 20,
            ICScannerDocumentType::ICScannerDocumentTypeA2 => 21,
            ICScannerDocumentType::ICScannerDocumentTypeA7 => 22,
            ICScannerDocumentType::ICScannerDocumentTypeA8 => 23,
            ICScannerDocumentType::ICScannerDocumentTypeA9 => 24,
            ICScannerDocumentType::ICScannerDocumentType10 => 25,
            ICScannerDocumentType::ICScannerDocumentTypeISOB0 => 26,
            ICScannerDocumentType::ICScannerDocumentTypeISOB1 => 27,
            ICScannerDocumentType::ICScannerDocumentTypeISOB2 => 28,
            ICScannerDocumentType::ICScannerDocumentTypeISOB5 => 29,
            ICScannerDocumentType::ICScannerDocumentTypeISOB7 => 30,
            ICScannerDocumentType::ICScannerDocumentTypeISOB8 => 31,
            ICScannerDocumentType::ICScannerDocumentTypeISOB9 => 32,
            ICScannerDocumentType::ICScannerDocumentTypeISOB10 => 33,
            ICScannerDocumentType::ICScannerDocumentTypeJISB0 => 34,
            ICScannerDocumentType::ICScannerDocumentTypeJISB1 => 35,
            ICScannerDocumentType::ICScannerDocumentTypeJISB2 => 36,
            ICScannerDocumentType::ICScannerDocumentTypeJISB3 => 37,
            ICScannerDocumentType::ICScannerDocumentTypeJISB4 => 38,
            ICScannerDocumentType::ICScannerDocumentTypeJISB6 => 39,
            ICScannerDocumentType::ICScannerDocumentTypeJISB7 => 40,
            ICScannerDocumentType::ICScannerDocumentTypeJISB8 => 41,
            ICScannerDocumentType::ICScannerDocumentTypeJISB9 => 42,
            ICScannerDocumentType::ICScannerDocumentTypeJISB10 => 43,
            ICScannerDocumentType::ICScannerDocumentTypeC0 => 44,
            ICScannerDocumentType::ICScannerDocumentTypeC1 => 45,
            ICScannerDocumentType::ICScannerDocumentTypeC2 => 46,
            ICScannerDocumentType::ICScannerDocumentTypeC3 => 47,
            ICScannerDocumentType::ICScannerDocumentTypeC7 => 48,
            ICScannerDocumentType::ICScannerDocumentTypeC8 => 49,
            ICScannerDocumentType::ICScannerDocumentTypeC9 => 50,
            ICScannerDocumentType::ICScannerDocumentTypeC10 => 51,
            ICScannerDocumentType::ICScannerDocumentTypeUSStatement => 52,
            ICScannerDocumentType::ICScannerDocumentTypeBusinessCard => 53,
            ICScannerDocumentType::ICScannerDocumentTypeE => 60,
            ICScannerDocumentType::ICScannerDocumentType3R => 61,
            ICScannerDocumentType::ICScannerDocumentType4R => 62,
            ICScannerDocumentType::ICScannerDocumentType5R => 63,
            ICScannerDocumentType::ICScannerDocumentType6R => 64,
            ICScannerDocumentType::ICScannerDocumentType8R => 65,
            ICScannerDocumentType::ICScannerDocumentTypeS8R => 66,
            ICScannerDocumentType::ICScannerDocumentType10R => 67,
            ICScannerDocumentType::ICScannerDocumentTypeS10R => 68,
            ICScannerDocumentType::ICScannerDocumentType11R => 69,
            ICScannerDocumentType::ICScannerDocumentType12R => 70,
            ICScannerDocumentType::ICScannerDocumentTypeS12R => 71,
            ICScannerDocumentType::ICScannerDocumentType110 => 72,
            ICScannerDocumentType::ICScannerDocumentTypeAPSH => 73,
            ICScannerDocumentType::ICScannerDocumentTypeAPSC => 74,
            ICScannerDocumentType::ICScannerDocumentTypeAPSP => 75,
            ICScannerDocumentType::ICScannerDocumentType135 => 76,
            ICScannerDocumentType::ICScannerDocumentTypeMF => 77,
            ICScannerDocumentType::ICScannerDocumentTypeLF => 78,
        }
    }

    /// Decode a numeric wire value: returns the unique variant carried
    /// as `raw`, and `None` exactly when no variant is.
    pub fn from_raw(raw: u64) -> (r: Option<Self>)
        ensures
            r matches Some(v) ==> v.spec_raw() == raw,
            r is None ==> forall|v: Self| v.spec_raw() != raw,
    {
        match raw {
            0 => Some(ICScannerDocumentType::ICScannerDocumentTypeDefault),
            1 => Some(ICScannerDocumentType::ICScannerDocumentTypeA4),
            2 => Some(ICScannerDocumentType::ICScannerDocumentTypeB5),
            3 => Some(ICScannerDocumentType::ICScannerDocumentTypeUSLetter),
            4 => Some(ICScannerDocumentType::ICScannerDocumentTypeUSLegal),
            5 => Some(ICScannerDocumentType::ICScannerDocumentTypeA5),
            6 => Some(ICScannerDocumentType::ICScannerDocumentTypeISOB4),
            7 => Some(ICScannerDocumentType::ICScannerDocumentTypeISOB6),
            9 => Some(ICScannerDocumentType::ICScannerDocumentTypeUSLedger),
            10 => Some(ICScannerDocumentType::ICScannerDocumentTypeUSExecutive),
            11 => Some(ICScannerDocumentType::ICScannerDocumentTypeA3),
            12 => Some(ICScannerDocumentType::ICScannerDocumentTypeISOB3),
            13 => Some(ICScannerDocumentType::ICScannerDocumentTypeA6),
            14 => Some(ICScannerDocumentType::ICScannerDocumentTypeC4),
            15 => Some(ICScannerDocumentType::ICScannerDocumentTypeC5),
            16 => Some(ICScannerDocumentType::ICScannerDocumentTypeC6),
            17 => Some(ICScannerDocumentType::ICScannerDocumentType4A0),
            18 => Some(ICScannerDocumentType::ICScannerDocumentType2A0),
            19 => Some(ICScannerDocumentType::ICScannerDocumentTypeA0),
            20 => Some(ICScannerDocumentType::ICScannerDocumentTypeA1),
            21 => Some(ICScannerDocumentType::ICScannerDocumentTypeA2),
            22 => Some(ICScannerDocumentType::ICScannerDocumentTypeA7),
            23 => Some(ICScannerDocumentType::ICScannerDocumentTypeA8),
            24 => Some(ICScannerDocumentType::ICScannerDocumentTypeA9),
            25 => Some(ICScannerDocumentType::ICScannerDocumentType10),
            26 => Some(ICScannerDocumentType::ICScannerDocumentTypeISOB0),
            27 => Some(ICScannerDocumentType::ICScannerDocumentTypeISOB1),
            28 => Some(ICScannerDocumentType::ICScannerDocumentTypeISOB2),
            29 => Some(ICScannerDocumentType::ICScannerDocumentTypeISOB5),
            30 => Some(ICScannerDocumentType::ICScannerDocumentTypeISOB7),
            31 => Some(ICScannerDocumentType::ICScannerDocumentTypeISOB8),
            32 => Some(ICScannerDocumentType::ICScannerDocumentTypeISOB9),
            33 => Some(ICScannerDocumentType::ICScannerDocumentTypeISOB10),
            34 => Some(ICScannerDocumentType::ICScannerDocumentTypeJISB0),
            35 => Some(ICScannerDocumentType::ICScannerDocumentTypeJISB1),
            36 => Some(ICScannerDocumentType::ICScannerDocumentTypeJISB2),
            37 => Some(ICScannerDocumentType::ICScannerDocumentTypeJISB3),
            38 => Some(ICScannerDocumentType::ICScannerDocumentTypeJISB4),
            39 => Some(ICScannerDocumentType::ICScannerDocumentTypeJISB6),
            40 => Some(ICScannerDocumentType::ICScannerDocumentTypeJISB7),
            41 => Some(ICScannerDocumentType::ICScannerDocumentTypeJISB8),
            42 => Some(ICScannerDocumentType::ICScannerDocumentTypeJISB9),
            43 => Some(ICScannerDocumentType::ICScannerDocumentTypeJISB10),
            44 => Some(ICScannerDocumentType::ICScannerDocumentTypeC0),
            45 => Some(ICScannerDocumentType::ICScannerDocumentTypeC1),
            46 => Some(ICScannerDocumentType::ICScannerDocumentTypeC2),
            47 => Some(ICScannerDocumentType::ICScannerDocumentTypeC3),
            48 => Some(ICScannerDocumentType::ICScannerDocumentTypeC7),
            49 => Some(ICScannerDocumentType::ICScannerDocumentTypeC8),
            50 => Some(ICScannerDocumentType::ICScannerDocumentTypeC9),
            51 => Some(ICScannerDocumentType::ICScannerDocumentTypeC10),
            52 => Some(ICScannerDocumentType::ICScannerDocumentTypeUSStatement),
            53 => Some(ICScannerDocumentType::ICScannerDocumentTypeBusinessCard),
            60 => Some(ICScannerDocumentType::ICScannerDocumentTypeE),
            61 => Some(ICScannerDocumentType::ICScannerDocumentType3R),
            62 => Some(ICScannerDocumentType::ICScannerDocumentType4R),
            63 => Some(ICScannerDocumentType::ICScannerDocumentType5R),
            64 => Some(ICScannerDocumentType::ICScannerDocumentType6R),
            65 => Some(ICScannerDocumentType::ICScannerDocumentType8R),
            66 => Some(ICScannerDocumentType::ICScannerDocumentTypeS8R),
            67 => Some(ICScannerDocumentType::ICScannerDocumentType10R),
            68 => Some(ICScannerDocumentType::ICScannerDocumentTypeS10R),
            69 => Some(ICScannerDocumentType::ICScannerDocumentType11R),
            70 => Some(ICScannerDocumentType::ICScannerDocumentType12R),
            71 => Some(ICScannerDocumentType::ICScannerDocumentTypeS12R),
            72 => Some(ICScannerDocumentType::ICScannerDocumentType110),
            73 => Some(ICScannerDocumentType::ICScannerDocumentTypeAPSH),
            74 => Some(ICScannerDocumentType::ICScannerDocumentTypeAPSC),
            75 => Some(ICScannerDocumentType::ICScannerDocumentTypeAPSP),
            76 => Some(ICScannerDocumentType::ICScannerDocumentType135),
            77 => Some(ICScannerDocumentType::ICScannerDocumentTypeMF),
            78 => Some(ICScannerDocumentType::ICScannerDocumentTypeLF),
            _ => None,
        }
    }

    /// Distinct variants have distinct wire values, so decoding a wire
    /// value determines the variant uniquely.
    pub proof fn lemma_raw_injective(a: Self, b: Self)
        ensures
            a.spec_raw() == b.spec_raw() ==> a == b,
    {
    }
}

/// State reported by a scanner functional unit.
///
/// Each state is carried as a distinct single-bit value.
#[derive(Clone, Copy, Debug, PartialEq, Eq, Structural)]
pub enum ICScannerFunctionalUnitState {
    /// The functional unit is ready for operation.
    ICScannerFunctionalUnitStateReady,
    /// The functional unit is performing a scan.
    ICScannerFunctionalUnitStateScanInProgress,
    /// The functional unit is performing an overview scan.
    ICScannerFunctionalUnitStateOverviewScanInProgress,
}

impl ICScannerFunctionalUnitState {
    /// The numeric value this variant is carried as across the runtime
    /// boundary.
    pub open spec fn spec_raw(self) -> int {
        match self {
            ICScannerFunctionalUnitState::ICScannerFunctionalUnitStateReady => 1,
            ICScannerFunctionalUnitState::ICScannerFunctionalUnitStateScanInProgress => 2,
            ICScannerFunctionalUnitState::ICScannerFunctionalUnitStateOverviewScanInProgress => 4,
        }
    }

    /// Encode this value as its numeric wire value.
    pub fn to_raw(self) -> (r: u64)
        ensures
            r == self.spec_raw(),
    {
        match self {
            ICScannerFunctionalUnitState::ICScannerFunctionalUnitStateReady => 1,
            ICScannerFunctionalUnitState::ICScannerFunctionalUnitStateScanInProgress => 2,
            ICScannerFunctionalUnitState::ICScannerFunctionalUnitStateOverviewScanInProgress => 4,
        }
    }

    /// Decode a numeric wire value: returns the unique variant carried
    /// as `raw`, and `None` exactly when no variant is.
    pub fn from_raw(raw: u64) -> (r: Option<Self>)
        ensures
            r matches Some(v) ==> v.spec_raw() == raw,
            r is None ==> forall|v: Self| v.spec_raw() != raw,
    {
        match raw {
            1 => Some(ICScannerFunctionalUnitState::ICScannerFunctionalUnitStateReady),
            2 => Some(ICScannerFunctionalUnitState::ICScannerFunctionalUnitStateScanInProgress),
            4 => Some(ICScannerFunctionalUnitState::ICScannerFunctionalUnitStateOverviewScanInProgress),
            _ => None,
        }
    }

    /// Distinct variants have distinct wire values, so decoding a wire
    /// value determines the variant uniquely.
    pub proof fn lemma_raw_injective(a: Self, b: Self)
        ensures
            a.spec_raw() == b.spec_raw() ==> a == b,
    {
    }
}

/// Kind of scanner feature: how the feature's value is structured.
#[derive(Clone, Copy, Debug, PartialEq, Eq, Structural)]
pub enum ICScannerFeatureType {
    /// The feature takes one of several discrete values.
    ICScannerFeatureTypeEnumeration,
    /// The feature's value lies within a range.
    ICScannerFeatureTypeRange,
    /// The feature's value is a yes or no.
    ICScannerFeatureTypeBoolean,
    /// The feature groups rectangular scan areas.
    ICScannerFeatureTypeTemplate,
}

impl ICScannerFeatureType {
    /// The numeric value this variant is carried as across the runtime
    /// boundary.
    pub open spec fn spec_raw(self) -> int {
        match self {
            ICScannerFeatureType::ICScannerFeatureTypeEnumeration => 0,
            ICScannerFeatureType::ICScannerFeatureTypeRange => 1,
            ICScannerFeatureType::ICScannerFeatureTypeBoolean => 2,
            ICScannerFeatureType::ICScannerFeatureTypeTemplate => 3,
        }
    }

    /// Encode this value as its numeric wire value.
    pub fn to_raw(self) -> (r: u64)
        ensures
            r == self.spec_raw(),
    {
        match self {
            ICScannerFeatureType::ICScannerFeatureTypeEnumeration => 0,
            ICScannerFeatureType::ICScannerFeatureTypeRange => 1,
            ICScannerFeatureType::ICScannerFeatureTypeBoolean => 2,
            ICScannerFeatureType::ICScannerFeatureTypeTemplate => 3,
        }
    }

    /// Decode a numeric wire value: returns the unique variant carried
    /// as `raw`, and `None` exactly when no variant is.
    pub fn from_raw(raw: u64) -> (r: Option<Self>)
        ensures
            r matches Some(v) ==> v.spec_raw() == raw,
            r is None ==> forall|v: Self| v.spec_raw() != raw,
    {
        match raw {
            0 => Some(ICScannerFeatureType::ICScannerFeatureTypeEnumeration),
            1 => Some(ICScannerFeatureType::ICScannerFeatureTypeRange),
            2 => Some(ICScannerFeatureType::ICScannerFeatureTypeBoolean),
            3 => Some(ICScannerFeatureType::ICScannerFeatureTypeTemplate),
            _ => None,
        }
    }

    /// Distinct variants have distinct wire values, so decoding a wire
    /// value determines the variant uniquely.
    pub proof fn lemma_raw_injective(a: Self, b: Self)
        ensures
            a.spec_raw() == b.spec_raw() ==> a == b,
    {
    }
}

} // verus!
