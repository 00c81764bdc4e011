use winkit::brush::Brush;
use winkit::class::{Class, ClassBuilder, WINDOW_SLOT_BYTES};
use winkit::handle::{ReleaseRequest, ResourceHandle, ResourceKind};
use winkit::icon::Icon;

#[test]
fn create_zero_raw_is_creation_failure() {
    let r = ResourceHandle::create(ResourceKind::Brush, 0, 55);
    assert_eq!(r.unwrap_err().as_raw(), 55);
}

#[test]
fn release_exactly_once_on_drop_path() {
    let mut h = ResourceHandle::create(ResourceKind::Menu, 0x1234, 0).unwrap();
    let first = h.finalize();
    assert_eq!(first, Some(ReleaseRequest { kind: ResourceKind::Menu, raw: 0x1234 }));
    assert_eq!(h.releases, 1);
    // Finalizing again issues nothing more.
    assert_eq!(h.finalize(), None);
    assert_eq!(h.releases, 1);
}

#[test]
fn no_release_after_ownership_transfer() {
    let mut h = ResourceHandle::create(ResourceKind::Icon, 0x4444, 0).unwrap();
    assert_eq!(h.into_raw(), 0x4444);
    assert_eq!(h.finalize(), None);
    assert_eq!(h.releases, 0);
}

#[test]
fn leaked_handle_releases_nothing() {
    let h = ResourceHandle::create(ResourceKind::Brush, 0x77, 0).unwrap();
    assert_eq!(h.releases, 0);
    assert!(h.armed);
}

#[test]
fn solid_rgb_color_packs_bytes() {
    assert_eq!(Brush::solid_rgb_color(0x44, 0x77, 0xFF), 0x00FF_7744);
    assert_eq!(Brush::solid_rgb_color(0, 0, 0), 0);
    assert_eq!(Brush::solid_rgb_color(255, 255, 255), 0x00FF_FFFF);
}

#[test]
fn brush_creation_outcomes() {
    assert_eq!(Brush::from_creation(0, 8).unwrap_err().as_raw(), 8);
    let mut b = Brush::from_creation(0x55, 0).unwrap();
    assert_eq!(b.as_raw(), 0x55);
    let req = b.finalize().unwrap();
    assert_eq!(req, ReleaseRequest { kind: ResourceKind::Brush, raw: 0x55 });
    assert_eq!(b.finalize(), None);
}

#[test]
fn icon_creation_and_transfer() {
    assert_eq!(Icon::from_creation(0, 2).unwrap_err().as_raw(), 2);
    let mut i = Icon::from_creation(0x99, 0).unwrap();
    assert_eq!(i.as_raw(), 0x99);
    assert_eq!(i.into_raw(), 0x99);
    assert_eq!(i.finalize(), None);
}

#[test]
fn class_registration_outcomes() {
    assert_eq!(Class::from_registration(0, 87).unwrap_err().as_raw(), 87);
    let mut c = Class::from_registration(0xC01D, 0).unwrap();
    assert_eq!(c.as_raw(), 0xC01D);
    assert_eq!(c.as_wstr(), 0xC01D);
    let req = c.finalize().unwrap();
    assert_eq!(req, ReleaseRequest { kind: ResourceKind::ClassAtom, raw: 0xC01D });
    assert_eq!(c.finalize(), None);
}

#[test]
fn class_descriptor_from_builder() {
    let brush = Brush::from_creation(0xB0B0, 0).unwrap();
    let d = ClassBuilder::new().name("LEPORIDAE").background(brush).icon(0x1C0).register();
    assert_eq!(d.style, 0);
    assert_eq!(d.extra_window_bytes, WINDOW_SLOT_BYTES);
    assert_eq!(d.icon, 0x1C0);
    assert_eq!(d.background, 0xB0B0);
    let mut expected: Vec<u16> = "LEPORIDAE".encode_utf16().collect();
    expected.push(0);
    assert_eq!(d.name, expected);
}

#[test]
fn class_descriptor_defaults() {
    let d = ClassBuilder::new().name("w").register();
    assert_eq!(d.icon, 0);
    assert_eq!(d.background, 0);
    assert_eq!(d.name, vec![b'w' as u16, 0]);
}
