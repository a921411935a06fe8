use image_capture_core::device::ICDeviceLocationType;
use image_capture_core::device::ICDeviceLocationTypeMask;
use image_capture_core::device::ICDeviceType;
use image_capture_core::device::ICDeviceTypeMask;
use image_capture_core::device::ICDeviceLocationTypeAllBits;
use image_capture_core::device::ICDeviceLocationTypeMaskRemote;
use image_capture_core::device::ICDeviceTypeAllBits;
use image_capture_core::device::ICDeviceTypeCamera;
use image_capture_core::device::ICDeviceTypeScanner;

#[test]
fn device_type_flag_values() {
    assert_eq!(ICDeviceTypeCamera, 0x1);
    assert_eq!(ICDeviceTypeScanner, 0x2);
    assert_eq!(ICDeviceType::camera().bits(), 0x1);
    assert_eq!(ICDeviceType::scanner().bits(), 0x2);
    assert_eq!(ICDeviceType::empty().bits(), 0);
    assert_eq!(ICDeviceType::all().bits(), 0x3);
    assert_eq!(ICDeviceTypeAllBits, 0x3);
}

#[test]
fn location_type_flag_values() {
    assert_eq!(ICDeviceLocationType::local().bits(), 0x100);
    assert_eq!(ICDeviceLocationType::shared().bits(), 0x200);
    assert_eq!(ICDeviceLocationType::bonjour().bits(), 0x400);
    assert_eq!(ICDeviceLocationType::bluetooth().bits(), 0x800);
    assert_eq!(ICDeviceLocationTypeAllBits, 0xF00);
}

#[test]
fn location_mask_flag_values() {
    assert_eq!(ICDeviceLocationTypeMask::local().bits(), 0x100);
    assert_eq!(ICDeviceLocationTypeMask::remote().bits(), 0xFE00);
    assert_eq!(ICDeviceLocationTypeMaskRemote, 0xFE00);
    assert_eq!(ICDeviceLocationTypeMask::all().bits(), 0xFF00);
}

#[test]
fn from_bits_accepts_only_defined_flags() {
    assert_eq!(ICDeviceType::from_bits(0x3).map(|f| f.bits()), Some(0x3));
    assert_eq!(ICDeviceType::from_bits(0x0).map(|f| f.bits()), Some(0x0));
    assert!(ICDeviceType::from_bits(0x4).is_none());
    assert!(ICDeviceType::from_bits(0x103).is_none());
}

#[test]
fn from_bits_truncate_clears_undefined_flags() {
    assert_eq!(ICDeviceType::from_bits_truncate(0xFFFF).bits(), 0x3);
    assert_eq!(ICDeviceLocationType::from_bits_truncate(0xFFFF).bits(), 0xF00);
    assert_eq!(ICDeviceLocationTypeMask::from_bits_truncate(0xFFFF).bits(), 0xFF00);
}

#[test]
fn union_intersection_difference() {
    let c = ICDeviceType::camera();
    let s = ICDeviceType::scanner();
    let both = c.union(s);
    assert_eq!(both.bits(), 0x3);
    assert!(both.contains(c));
    assert!(both.contains(s));
    assert!(both.intersects(c));
    assert!(!c.intersects(s));
    assert_eq!(both.intersection(c).bits(), 0x1);
    assert_eq!(both.difference(c).bits(), 0x2);
    assert_eq!(both.symmetric_difference(c).bits(), 0x2);
    assert_eq!(c.symmetric_difference(s).bits(), 0x3);
}

#[test]
fn empty_and_all() {
    assert!(ICDeviceType::empty().is_empty());
    assert!(!ICDeviceType::camera().is_empty());
    assert!(ICDeviceType::all().is_all());
    assert!(!ICDeviceType::camera().is_all());
}

#[test]
fn insert_remove_toggle_set() {
    let mut f = ICDeviceLocationType::empty();
    f.insert(ICDeviceLocationType::local());
    assert_eq!(f.bits(), 0x100);
    f.insert(ICDeviceLocationType::bonjour());
    assert_eq!(f.bits(), 0x500);
    f.remove(ICDeviceLocationType::local());
    assert_eq!(f.bits(), 0x400);
    f.toggle(ICDeviceLocationType::bluetooth());
    assert_eq!(f.bits(), 0xC00);
    f.toggle(ICDeviceLocationType::bonjour());
    assert_eq!(f.bits(), 0x800);
    f.set(ICDeviceLocationType::shared(), true);
    assert_eq!(f.bits(), 0xA00);
    f.set(ICDeviceLocationType::bluetooth(), false);
    assert_eq!(f.bits(), 0x200);
}

#[test]
fn classify_a_device_type_word() {
    // A device reports its kind OR'd with its location; the masks pull the
    // halves back apart.
    let word = ICDeviceType::scanner().bits() | ICDeviceLocationType::bonjour().bits();
    assert_eq!(word & ICDeviceTypeMask::scanner().bits(), 0x2);
    assert_eq!(word & ICDeviceTypeMask::camera().bits(), 0);
    assert_ne!(word & ICDeviceLocationTypeMask::remote().bits(), 0);
    assert_eq!(word & ICDeviceLocationTypeMask::local().bits(), 0);
}
