//! Typed value vocabulary for a device-capture (camera and scanner) binding.
//!
//! The capture framework itself lives behind an object-messaging runtime and
//! is reached only through unverified dispatch code outside this library.
//! What this library owns, and verifies, is the value layer that crosses that
//! boundary: the enumerated tag types (return codes, orientations, scanner
//! modes, units, formats, document sizes), their exact wire encodings, and the
//! bitmask types used to classify devices.  Every conversion between a typed
//! value and its raw machine word is specified exactly and proved total on
//! its domain.

pub mod bits;
pub mod constants;
pub mod device;
pub mod scanner_device;
pub mod scanner_functional_units;

pub use constants::ICEXIFOrientationType;
pub use constants::ICReturnCode;
