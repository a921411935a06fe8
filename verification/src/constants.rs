//! Framework-wide constant value types: EXIF orientation tags and the return
//! codes reported by capture operations.

use vstd::prelude::*;

verus! {

/// Value of the EXIF Orientation tag carried with an image.
///
/// The wire encoding is the tag value itself, an integer from 1 to 8.
#[derive(Clone, Copy, Debug, PartialEq, Eq, Structural)]
pub enum ICEXIFOrientationType {
    /// Normal.
    ICEXIFOrientation1,
    /// Flipped horizontally.
    ICEXIFOrientation2,
    /// Rotated 180 degrees.
    ICEXIFOrientation3,
    /// Flipped vertically.
    ICEXIFOrientation4,
    /// Rotated 90 degrees counterclockwise and flipped vertically.
    ICEXIFOrientation5,
    /// Rotated 90 degrees counterclockwise.
    ICEXIFOrientation6,
    /// Rotated 90 degrees clockwise and flipped vertically.
    ICEXIFOrientation7,
    /// Rotated 90 degrees clockwise.
    ICEXIFOrientation8,
}

impl ICEXIFOrientationType {
    /// The tag value this orientation is carried as across the runtime
    /// boundary.
    pub open spec fn spec_raw(self) -> int {
        match self {
            ICEXIFOrientationType::ICEXIFOrientation1 => 1,
            ICEXIFOrientationType::ICEXIFOrientation2 => 2,
            ICEXIFOrientationType::ICEXIFOrientation3 => 3,
            ICEXIFOrientationType::ICEXIFOrientation4 => 4,
            ICEXIFOrientationType::ICEXIFOrientation5 => 5,
            ICEXIFOrientationType::ICEXIFOrientation6 => 6,
            ICEXIFOrientationType::ICEXIFOrientation7 => 7,
            ICEXIFOrientationType::ICEXIFOrientation8 => 8,
        }
    }

    /// Encode this orientation as its wire tag value.
    pub fn to_raw(self) -> (r: u64)
        ensures
            r == self.spec_raw(),
    {
        match self {
            ICEXIFOrientationType::ICEXIFOrientation1 => 1,
            ICEXIFOrientationType::ICEXIFOrientation2 => 2,
            ICEXIFOrientationType::ICEXIFOrientation3 => 3,
            ICEXIFOrientationType::ICEXIFOrientation4 => 4,
            ICEXIFOrientationType::ICEXIFOrientation5 => 5,
            ICEXIFOrientationType::ICEXIFOrientation6 => 6,
            ICEXIFOrientationType::ICEXIFOrientation7 => 7,
            ICEXIFOrientationType::ICEXIFOrientation8 => 8,
        }
    }

    /// Decode a wire tag value: returns the unique orientation carried as
    /// `raw`, and `None` exactly when no orientation is.
    pub fn from_raw(raw: u64) -> (r: Option<Self>)
        ensures
            r matches Some(v) ==> v.spec_raw() == raw,
            r is None ==> forall|v: Self| v.spec_raw() != raw,
    {
        match raw {
            1 => Some(ICEXIFOrientationType::ICEXIFOrientation1),
            2 => Some(ICEXIFOrientationType::ICEXIFOrientation2),
            3 => Some(ICEXIFOrientationType::ICEXIFOrientation3),
            4 => Some(ICEXIFOrientationType::ICEXIFOrientation4),
            5 => Some(ICEXIFOrientationType::ICEXIFOrientation5),
            6 => Some(ICEXIFOrientationType::ICEXIFOrientation6),
            7 => Some(ICEXIFOrientationType::ICEXIFOrientation7),
            8 => Some(ICEXIFOrientationType::ICEXIFOrientation8),
            _ => None,
        }
    }

    /// Distinct orientations have distinct wire tag values, so decoding a
    /// tag value determines the orientation uniquely.
    pub proof fn lemma_raw_injective(a: Self, b: Self)
        ensures
            a.spec_raw() == b.spec_raw() ==> a == b,
    {
    }
}

/// Code returned by a capture operation.
///
/// Zero reports success; every failure is a distinct negative code chosen by
/// the capture framework and passed through unchanged.
#[derive(Clone, Copy, Debug, PartialEq, Eq, Structural)]
pub enum ICReturnCode {
    ICReturnSuccess,
    ICReturnInvalidParam,
    ICReturnCommunicationTimedOut,
    ICReturnScanOperationCanceled,
    ICReturnScannerInUseByLocalUser,
    ICReturnScannerInUseByRemoteUser,
    ICReturnDeviceFailedToOpenSession,
    ICReturnDeviceFailedToCloseSession,
    ICReturnScannerFailedToSelectFunctionalUnit,
    ICReturnScannerFailedToCompleteOverviewScan,
    ICReturnScannerFailedToCompleteScan,
    ICReturnReceivedUnsolicitedScannerStatusInfo,
    ICReturnReceivedUnsolicitedScannerErrorInfo,
    ICReturnDownloadFailed,
    ICReturnUploadFailed,
    ICReturnFailedToCompletePassThroughCommand,
    ICReturnDownloadCanceled,
    ICReturnFailedToEnabeTethering,
    ICReturnFailedToDisabeTethering,
    ICReturnFailedToCompleteSendMessageRequest,
    ICReturnDeleteFilesFailed,
    ICReturnDeleteFilesCanceled,
    ICReturnDeviceIsPasscodeLocked,
    ICReturnDeviceFailedToTakePicture,
    ICReturnDeviceSoftwareNotInstalled,
    ICReturnDeviceSoftwareIsBeingInstalled,
    ICReturnDeviceSoftwareInstallationCompleted,
    ICReturnDeviceSoftwareInstallationCanceled,
    ICReturnDeviceSoftwareInstallationFailed,
    ICReturnDeviceSoftwareNotAvailable,
    ICReturnDeviceCouldNotPair,
    ICReturnDeviceCouldNotUnpair,
    ICReturnDeviceNeedsCredentials,
    ICReturnDeviceIsBusyEnumerating,
    ICReturnDeviceCommandGeneralFailure,
}

impl ICReturnCode {
    /// The numeric code this value is carried as across the runtime boundary.
    pub open spec fn spec_raw(self) -> int {
        match self {
            ICReturnCode::ICReturnSuccess => 0,
            ICReturnCode::ICReturnInvalidParam => -9922,
            ICReturnCode::ICReturnCommunicationTimedOut => -9923,
            ICReturnCode::ICReturnScanOperationCanceled => -9924,
            ICReturnCode::ICReturnScannerInUseByLocalUser => -9925,
            ICReturnCode::ICReturnScannerInUseByRemoteUser => -9926,
            ICReturnCode::ICReturnDeviceFailedToOpenSession => -9927,
            ICReturnCode::ICReturnDeviceFailedToCloseSession => -9928,
            ICReturnCode::ICReturnScannerFailedToSelectFunctionalUnit => -9929,
            ICReturnCode::ICReturnScannerFailedToCompleteOverviewScan => -9930,
            ICReturnCode::ICReturnScannerFailedToCompleteScan => -9931,
            ICReturnCode::ICReturnReceivedUnsolicitedScannerStatusInfo => -9932,
            ICReturnCode::ICReturnReceivedUnsolicitedScannerErrorInfo => -9933,
            ICReturnCode::ICReturnDownloadFailed => -9934,
            ICReturnCode::ICReturnUploadFailed => -9935,
            ICReturnCode::ICReturnFailedToCompletePassThroughCommand => -9936,
            ICReturnCode::ICReturnDownloadCanceled => -9937,
            ICReturnCode::ICReturnFailedToEnabeTethering => -9938,
            ICReturnCode::ICReturnFailedToDisabeTethering => -9939,
            ICReturnCode::ICReturnFailedToCompleteSendMessageRequest => -9940,
            ICReturnCode::ICReturnDeleteFilesFailed => -9941,
            ICReturnCode::ICReturnDeleteFilesCanceled => -9942,
            ICReturnCode::ICReturnDeviceIsPasscodeLocked => -9943,
            ICReturnCode::ICReturnDeviceFailedToTakePicture => -9944,
            ICReturnCode::ICReturnDeviceSoftwareNotInstalled => -9945,
            ICReturnCode::ICReturnDeviceSoftwareIsBeingInstalled => -9946,
            ICReturnCode::ICReturnDeviceSoftwareInstallationCompleted => -9947,
            ICReturnCode::ICReturnDeviceSoftwareInstallationCanceled => -9948,
            ICReturnCode::ICReturnDeviceSoftwareInstallationFailed => -9949,
            ICReturnCode::ICReturnDeviceSoftwareNotAvailable => -9950,
            ICReturnCode::ICReturnDeviceCouldNotPair => -9951,
            ICReturnCode::ICReturnDeviceCouldNotUnpair => -9952,
            ICReturnCode::ICReturnDeviceNeedsCredentials => -9953,
            ICReturnCode::ICReturnDeviceIsBusyEnumerating => -9954,
            ICReturnCode::ICReturnDeviceCommandGeneralFailure => -9955,
        }
    }

    /// Whether this code reports a completed operation rather than a failure.
    pub open spec fn spec_is_success(self) -> bool {
        self is ICReturnSuccess
    }

    /// Encode this return code as its numeric wire value.
    pub fn to_raw(self) -> (r: i64)
        ensures
            r == self.spec_raw(),
    {
        match self {
            ICReturnCode::ICReturnSuccess => 0i64,
            ICReturnCode::ICReturnInvalidParam => -9922i64,
            ICReturnCode::ICReturnCommunicationTimedOut => -9923i64,
            ICReturnCode::ICReturnScanOperationCanceled => -9924i64,
            ICReturnCode::ICReturnScannerInUseByLocalUser => -9925i64,
            ICReturnCode::ICReturnScannerInUseByRemoteUser => -9926i64,
            ICReturnCode::ICReturnDeviceFailedToOpenSession => -9927i64,
            ICReturnCode::ICReturnDeviceFailedToCloseSession => -9928i64,
            ICReturnCode::ICReturnScannerFailedToSelectFunctionalUnit => -9929i64,
            ICReturnCode::ICReturnScannerFailedToCompleteOverviewScan => -9930i64,
            ICReturnCode::ICReturnScannerFailedToCompleteScan => -9931i64,
            ICReturnCode::ICReturnReceivedUnsolicitedScannerStatusInfo => -9932i64,
            ICReturnCode::ICReturnReceivedUnsolicitedScannerErrorInfo => -9933i64,
            ICReturnCode::ICReturnDownloadFailed => -9934i64,
            ICReturnCode::ICReturnUploadFailed => -9935i64,
            ICReturnCode::ICReturnFailedToCompletePassThroughCommand => -9936i64,
            ICReturnCode::ICReturnDownloadCanceled => -9937i64,
            ICReturnCode::ICReturnFailedToEnabeTethering => -9938i64,
            ICReturnCode::ICReturnFailedToDisabeTethering => -9939i64,
            ICReturnCode::ICReturnFailedToCompleteSendMessageRequest => -9940i64,
            ICReturnCode::ICReturnDeleteFilesFailed => -9941i64,
            ICReturnCode::ICReturnDeleteFilesCanceled => -9942i64,
            ICReturnCode::ICReturnDeviceIsPasscodeLocked => -9943i64,
            ICReturnCode::ICReturnDeviceFailedToTakePicture => -9944i64,
            ICReturnCode::ICReturnDeviceSoftwareNotInstalled => -9945i64,
            ICReturnCode::ICReturnDeviceSoftwareIsBeingInstalled => -9946i64,
            ICReturnCode::ICReturnDeviceSoftwareInstallationCompleted => -9947i64,
            ICReturnCode::ICReturnDeviceSoftwareInstallationCanceled => -9948i64,
            ICReturnCode::ICReturnDeviceSoftwareInstallationFailed => -9949i64,
            ICReturnCode::ICReturnDeviceSoftwareNotAvailable => -9950i64,
            ICReturnCode::ICReturnDeviceCouldNotPair => -9951i64,
            ICReturnCode::ICReturnDeviceCouldNotUnpair => -9952i64,
            ICReturnCode::ICReturnDeviceNeedsCredentials => -9953i64,
            ICReturnCode::ICReturnDeviceIsBusyEnumerating => -9954i64,
            ICReturnCode::ICReturnDeviceCommandGeneralFailure => -9955i64,
        }
    }

    /// Decode a numeric wire value: returns the unique return code carried
    /// as `raw`, and `None` exactly when no code is.
    pub fn from_raw(raw: i64) -> (r: Option<Self>)
        ensures
            r matches Some(v) ==> v.spec_raw() == raw,
            r is None ==> forall|v: Self| v.spec_raw() != raw,
    {
        match raw {
            0 => Some(ICReturnCode::ICReturnSuccess),
            -9922 => Some(ICReturnCode::ICReturnInvalidParam),
            -9923 => Some(ICReturnCode::ICReturnCommunicationTimedOut),
            -9924 => Some(ICReturnCode::ICReturnScanOperationCanceled),
            -9925 => Some(ICReturnCode::ICReturnScannerInUseByLocalUser),
            -9926 => Some(ICReturnCode::ICReturnScannerInUseByRemoteUser),
            -9927 => Some(ICReturnCode::ICReturnDeviceFailedToOpenSession),
            -9928 => Some(ICReturnCode::ICReturnDeviceFailedToCloseSession),
            -9929 => Some(ICReturnCode::ICReturnScannerFailedToSelectFunctionalUnit),
            -9930 => Some(ICReturnCode::ICReturnScannerFailedToCompleteOverviewScan),
            -9931 => Some(ICReturnCode::ICReturnScannerFailedToCompleteScan),
            -9932 => Some(ICReturnCode::ICReturnReceivedUnsolicitedScannerStatusInfo),
            -9933 => Some(ICReturnCode::ICReturnReceivedUnsolicitedScannerErrorInfo),
            -9934 => Some(ICReturnCode::ICReturnDownloadFailed),
            -9935 => Some(ICReturnCode::ICReturnUploadFailed),
            -9936 => Some(ICReturnCode::ICReturnFailedToCompletePassThroughCommand),
            -9937 => Some(ICReturnCode::ICReturnDownloadCanceled),
            -9938 => Some(ICReturnCode::ICReturnFailedToEnabeTethering),
            -9939 => Some(ICReturnCode::ICReturnFailedToDisabeTethering),
            -9940 => Some(ICReturnCode::ICReturnFailedToCompleteSendMessageRequest),
            -9941 => Some(ICReturnCode::ICReturnDeleteFilesFailed),
            -9942 => Some(ICReturnCode::ICReturnDeleteFilesCanceled),
            -9943 => Some(ICReturnCode::ICReturnDeviceIsPasscodeLocked),
            -9944 => Some(ICReturnCode::ICReturnDeviceFailedToTakePicture),
            -9945 => Some(ICReturnCode::ICReturnDeviceSoftwareNotInstalled),
            -9946 => Some(ICReturnCode::ICReturnDeviceSoftwareIsBeingInstalled),
            -9947 => Some(ICReturnCode::ICReturnDeviceSoftwareInstallationCompleted),
            -9948 => Some(ICReturnCode::ICReturnDeviceSoftwareInstallationCanceled),
            -9949 => Some(ICReturnCode::ICReturnDeviceSoftwareInstallationFailed),
            -9950 => Some(ICReturnCode::ICReturnDeviceSoftwareNotAvailable),
            -9951 => Some(ICReturnCode::ICReturnDeviceCouldNotPair),
            -9952 => Some(ICReturnCode::ICReturnDeviceCouldNotUnpair),
            -9953 => Some(ICReturnCode::ICReturnDeviceNeedsCredentials),
            -9954 => Some(ICReturnCode::ICReturnDeviceIsBusyEnumerating),
            -9955 => Some(ICReturnCode::ICReturnDeviceCommandGeneralFailure),
            _ => None,
        }
    }

    /// Report whether this code is the success code.
    pub fn is_success(&self) -> (r: bool)
        ensures
            r == self.spec_is_success(),
    {
        matches!(self, ICReturnCode::ICReturnSuccess)
    }

    /// Distinct return codes have distinct numeric wire values, so decoding
    /// a wire value determines the code uniquely.
    pub proof fn lemma_raw_injective(a: Self, b: Self)
        ensures
            a.spec_raw() == b.spec_raw() ==> a == b,
    {
    }
}

} // verus!
