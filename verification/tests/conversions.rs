use image_capture_core::constants::ICEXIFOrientationType;
use image_capture_core::constants::ICReturnCode;
use image_capture_core::scanner_device::ICScannerTransferMode;
use image_capture_core::scanner_functional_units::ICScannerBitDepth;
use image_capture_core::scanner_functional_units::ICScannerColorDataFormatType;
use image_capture_core::scanner_functional_units::ICScannerDocumentType;
use image_capture_core::scanner_functional_units::ICScannerFeatureType;
use image_capture_core::scanner_functional_units::ICScannerFunctionalUnitState;
use image_capture_core::scanner_functional_units::ICScannerFunctionalUnitType;
use image_capture_core::scanner_functional_units::ICScannerMeasurementUnit;
use image_capture_core::scanner_functional_units::ICScannerPixelDataType;

#[test]
fn exif_orientation_wire_values() {
    let all = [
        (ICEXIFOrientationType::ICEXIFOrientation1, 1),
        (ICEXIFOrientationType::ICEXIFOrientation2, 2),
        (ICEXIFOrientationType::ICEXIFOrientation3, 3),
        (ICEXIFOrientationType::ICEXIFOrientation4, 4),
        (ICEXIFOrientationType::ICEXIFOrientation5, 5),
        (ICEXIFOrientationType::ICEXIFOrientation6, 6),
        (ICEXIFOrientationType::ICEXIFOrientation7, 7),
        (ICEXIFOrientationType::ICEXIFOrientation8, 8),
    ];
    for (v, raw) in all {
        assert_eq!(v.to_raw(), raw);
        assert_eq!(ICEXIFOrientationType::from_raw(raw), Some(v));
    }
}

#[test]
fn exif_orientation_unknown_values() {
    assert_eq!(ICEXIFOrientationType::from_raw(0), None);
    assert_eq!(ICEXIFOrientationType::from_raw(9), None);
    assert_eq!(ICEXIFOrientationType::from_raw(u64::MAX), None);
}

#[test]
fn return_code_wire_values() {
    assert_eq!(ICReturnCode::ICReturnSuccess.to_raw(), 0);
    assert_eq!(ICReturnCode::ICReturnInvalidParam.to_raw(), -9922);
    assert_eq!(ICReturnCode::ICReturnDeviceCommandGeneralFailure.to_raw(), -9955);
    assert_eq!(
        ICReturnCode::from_raw(-9934),
        Some(ICReturnCode::ICReturnDownloadFailed)
    );
    assert_eq!(
        ICReturnCode::from_raw(-9943),
        Some(ICReturnCode::ICReturnDeviceIsPasscodeLocked)
    );
}

#[test]
fn return_code_round_trip_all() {
    let mut raw = -9922i64;
    while raw >= -9955 {
        let code = ICReturnCode::from_raw(raw).expect("every code in the block decodes");
        assert_eq!(code.to_raw(), raw);
        assert!(!code.is_success());
        raw -= 1;
    }
}

#[test]
fn return_code_unknown_values() {
    assert_eq!(ICReturnCode::from_raw(1), None);
    assert_eq!(ICReturnCode::from_raw(-1), None);
    assert_eq!(ICReturnCode::from_raw(-9921), None);
    assert_eq!(ICReturnCode::from_raw(-9956), None);
}

#[test]
fn return_code_success() {
    let ok = ICReturnCode::from_raw(0).expect("zero decodes");
    assert_eq!(ok, ICReturnCode::ICReturnSuccess);
    assert!(ok.is_success());
}

#[test]
fn transfer_mode_wire_values() {
    assert_eq!(ICScannerTransferMode::ICScannerTransferModeFileBased.to_raw(), 0);
    assert_eq!(ICScannerTransferMode::ICScannerTransferModeMemoryBased.to_raw(), 1);
    assert_eq!(
        ICScannerTransferMode::from_raw(1),
        Some(ICScannerTransferMode::ICScannerTransferModeMemoryBased)
    );
    assert_eq!(ICScannerTransferMode::from_raw(2), None);
}

#[test]
fn functional_unit_type_wire_values() {
    assert_eq!(
        ICScannerFunctionalUnitType::ICScannerFunctionalUnitTypeFlatbed.to_raw(),
        0
    );
    assert_eq!(
        ICScannerFunctionalUnitType::ICScannerFunctionalUnitTypeDocumentFeeder.to_raw(),
        3
    );
    assert_eq!(
        ICScannerFunctionalUnitType::from_raw(2),
        Some(ICScannerFunctionalUnitType::ICScannerFunctionalUnitTypeNegativeTransparency)
    );
    assert_eq!(ICScannerFunctionalUnitType::from_raw(4), None);
}

#[test]
fn measurement_unit_wire_values() {
    assert_eq!(
        ICScannerMeasurementUnit::ICScannerMeasurementUnitInches.to_raw(),
        0
    );
    assert_eq!(
        ICScannerMeasurementUnit::ICScannerMeasurementUnitPixels.to_raw(),
        5
    );
    assert_eq!(
        ICScannerMeasurementUnit::from_raw(4),
        Some(ICScannerMeasurementUnit::ICScannerMeasurementUnitTwips)
    );
    assert_eq!(ICScannerMeasurementUnit::from_raw(6), None);
}

#[test]
fn bit_depth_wire_values() {
    assert_eq!(ICScannerBitDepth::ICScannerBitDepth1Bit.to_raw(), 1);
    assert_eq!(ICScannerBitDepth::ICScannerBitDepth8Bits.to_raw(), 8);
    assert_eq!(ICScannerBitDepth::ICScannerBitDepth16Bits.to_raw(), 16);
    assert_eq!(
        ICScannerBitDepth::from_raw(8),
        Some(ICScannerBitDepth::ICScannerBitDepth8Bits)
    );
    assert_eq!(ICScannerBitDepth::from_raw(0), None);
    assert_eq!(ICScannerBitDepth::from_raw(2), None);
    assert_eq!(ICScannerBitDepth::from_raw(24), None);
}

#[test]
fn color_data_format_wire_values() {
    assert_eq!(
        ICScannerColorDataFormatType::ICScannerColorDataFormatTypeChunky.to_raw(),
        0
    );
    assert_eq!(
        ICScannerColorDataFormatType::from_raw(1),
        Some(ICScannerColorDataFormatType::ICScannerColorDataFormatTypePlanar)
    );
    assert_eq!(ICScannerColorDataFormatType::from_raw(2), None);
}

#[test]
fn pixel_data_type_wire_values() {
    assert_eq!(ICScannerPixelDataType::ICScannerPixelDataTypeBW.to_raw(), 0);
    assert_eq!(ICScannerPixelDataType::ICScannerPixelDataTypeRGB.to_raw(), 2);
    assert_eq!(
        ICScannerPixelDataType::ICScannerPixelDataTypeCIEXYZ.to_raw(),
        8
    );
    assert_eq!(
        ICScannerPixelDataType::from_raw(5),
        Some(ICScannerPixelDataType::ICScannerPixelDataTypeCMYK)
    );
    assert_eq!(ICScannerPixelDataType::from_raw(9), None);
}

#[test]
fn functional_unit_state_wire_values() {
    assert_eq!(
        ICScannerFunctionalUnitState::ICScannerFunctionalUnitStateReady.to_raw(),
        1
    );
    assert_eq!(
        ICScannerFunctionalUnitState::ICScannerFunctionalUnitStateScanInProgress.to_raw(),
        2
    );
    assert_eq!(
        ICScannerFunctionalUnitState::ICScannerFunctionalUnitStateOverviewScanInProgress.to_raw(),
        4
    );
    assert_eq!(ICScannerFunctionalUnitState::from_raw(0), None);
    assert_eq!(ICScannerFunctionalUnitState::from_raw(3), None);
}

#[test]
fn feature_type_wire_values() {
    assert_eq!(
        ICScannerFeatureType::ICScannerFeatureTypeEnumeration.to_raw(),
        0
    );
    assert_eq!(
        ICScannerFeatureType::from_raw(3),
        Some(ICScannerFeatureType::ICScannerFeatureTypeTemplate)
    );
    assert_eq!(ICScannerFeatureType::from_raw(4), None);
}

#[test]
fn document_type_wire_values() {
    assert_eq!(ICScannerDocumentType::ICScannerDocumentTypeDefault.to_raw(), 0);
    assert_eq!(ICScannerDocumentType::ICScannerDocumentTypeA4.to_raw(), 1);
    assert_eq!(
        ICScannerDocumentType::ICScannerDocumentTypeBusinessCard.to_raw(),
        53
    );
    assert_eq!(ICScannerDocumentType::ICScannerDocumentTypeLF.to_raw(), 78);
    assert_eq!(
        ICScannerDocumentType::from_raw(3),
        Some(ICScannerDocumentType::ICScannerDocumentTypeUSLetter)
    );
    assert_eq!(
        ICScannerDocumentType::from_raw(72),
        Some(ICScannerDocumentType::ICScannerDocumentType110)
    );
}

#[test]
fn document_type_gaps_in_wire_values() {
    // The numbering the framework assigns has holes; they must not decode.
    assert_eq!(ICScannerDocumentType::from_raw(8), None);
    for raw in 54..60 {
        assert_eq!(ICScannerDocumentType::from_raw(raw), None);
    }
    assert_eq!(ICScannerDocumentType::from_raw(79), None);
}

#[test]
fn document_type_round_trip_all() {
    for raw in 0..100u64 {
        if let Some(v) = ICScannerDocumentType::from_raw(raw) {
            assert_eq!(v.to_raw(), raw);
        }
    }
}
