use capture_transfer::model::{ClockDomain, ColorSpace, DamageKind, FrameSyncKind, PixelFormat};

#[test]
fn frame_metadata_defaults_are_explicit() {
    assert_eq!(PixelFormat::Unknown as u32, 0);
    assert_eq!(PixelFormat::Bgra8Unorm as u32, 1);
    assert_eq!(PixelFormat::Rgba8Unorm as u32, 2);
    assert_eq!(ClockDomain::Unknown as u32, 0);
    assert_eq!(ClockDomain::UnixTime as u32, 1);
    assert_eq!(ClockDomain::MediaTime as u32, 2);
    assert_eq!(FrameSyncKind::CpuCopyComplete as u32, 1);
    assert_eq!(DamageKind::FullFrame as u32, 1);
    assert_eq!(ColorSpace::Unknown as u32, 0);
}

#[test]
fn wire_codes_follow_declaration_order() {
    assert_eq!(PixelFormat::Rgba8Unorm.code(), 2);
    assert_eq!(ClockDomain::HostTime.code(), 3);
    assert_eq!(FrameSyncKind::NativeTimeline.code(), 3);
    assert_eq!(DamageKind::Unchanged.code(), 2);
    assert_eq!(DamageKind::SidecarRects.code(), 4);
    assert_eq!(ColorSpace::Srgb.code(), 1);
}
