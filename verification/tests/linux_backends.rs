use capture_transfer::ffi_native::{
    attach_transport_supported, FT_NATIVE_ATTACH_TRANSPORT_MACOS_XPC, FT_NATIVE_ATTACH_TRANSPORT_UNIX_SOCKET,
    FT_NATIVE_HANDLE_DMABUF, FT_NATIVE_SYNC_DRM_SYNCOBJ_TIMELINE,
};
use capture_transfer::model::PixelFormat;
use capture_transfer::native::linux::pipewire::{
    drm_fourcc_for_pixel_format, PipeWireDmabufFrameLayout, PipeWireDmabufPlaneLayout, PipeWireRuntimeProbe,
    DRM_FORMAT_BGRA8888, DRM_FORMAT_RGBA8888,
};
use capture_transfer::native::linux::vulkan::{check_reference_grant, validate_reference_surfaces, VulkanRuntimeProbe};
use capture_transfer::native::linux::{
    LinuxAttachGrant, LinuxPlaneDescriptor, LinuxPoolDescriptor, LinuxSurfaceDescriptor, LinuxSyncDescriptor,
};

fn pipewire_probe() -> PipeWireRuntimeProbe {
    PipeWireRuntimeProbe {
        can_init: true,
        can_create_thread_loop: true,
        spa_data_dmabuf: 3,
        spa_data_syncobj: 5,
        spa_meta_header: 1,
        spa_meta_video_damage: 4,
        spa_video_format_bgra: 12,
        spa_video_format_rgba: 11,
        spa_video_max_planes: 4,
        spa_format_video_modifier: 0x20007,
        library_version: None,
    }
}

fn plane(stride: u32) -> PipeWireDmabufPlaneLayout {
    PipeWireDmabufPlaneLayout { offset: 0, stride }
}

#[test]
fn maps_jackstay_pixel_formats_to_drm_fourcc() {
    assert_eq!(drm_fourcc_for_pixel_format(PixelFormat::Bgra8Unorm), Some(DRM_FORMAT_BGRA8888));
    assert_eq!(drm_fourcc_for_pixel_format(PixelFormat::Rgba8Unorm), Some(DRM_FORMAT_RGBA8888));
    assert_eq!(drm_fourcc_for_pixel_format(PixelFormat::Unknown), None);
    assert_eq!(DRM_FORMAT_BGRA8888.to_le_bytes(), *b"BA24");
    assert_eq!(DRM_FORMAT_RGBA8888.to_le_bytes(), *b"RA24");
}

#[test]
fn rejects_invalid_pipewire_dmabuf_descriptors() {
    let probe = pipewire_probe();
    let frame = |width, spa_format, planes| PipeWireDmabufFrameLayout { width, height: 32, spa_format, modifier: 0, planes };

    assert!(frame(0, probe.spa_video_format_bgra, vec![plane(256)]).surface_pixel_format(&probe).is_err());
    assert!(frame(64, u32::MAX, vec![plane(256)]).surface_pixel_format(&probe).is_err());
    assert!(frame(64, probe.spa_video_format_bgra, Vec::new()).surface_pixel_format(&probe).is_err());
    assert!(frame(64, probe.spa_video_format_bgra, vec![plane(1), plane(1), plane(1), plane(1), plane(1)])
        .surface_pixel_format(&probe)
        .is_err());
    assert!(frame(64, probe.spa_video_format_bgra, vec![plane(0)]).surface_pixel_format(&probe).is_err());
    assert_eq!(
        frame(64, probe.spa_video_format_bgra, vec![plane(256)]).surface_pixel_format(&probe),
        Ok(PixelFormat::Bgra8Unorm)
    );
    assert!(probe.supports_dmabuf_producer_primitives());
    assert_eq!(probe.spa_format_for_pixel_format(PixelFormat::Rgba8Unorm), Some(11));
}

fn supported_probe() -> VulkanRuntimeProbe {
    VulkanRuntimeProbe {
        loader_present: true,
        can_enumerate_instance_extensions: true,
        can_create_instance: true,
        physical_device_count: 1,
        instance_extension_count: 4,
        has_get_physical_device_properties2: true,
        has_external_memory_capabilities: true,
        has_external_semaphore_capabilities: true,
        has_external_fence_capabilities: true,
        has_external_memory_dma_buf: true,
        has_external_memory_fd: true,
        has_image_drm_format_modifier: true,
        has_get_memory_requirements2: true,
        has_bind_memory2: true,
        has_queue_family_foreign: true,
        has_external_semaphore_fd: true,
        has_external_fence_fd: true,
        has_timeline_semaphore: true,
        can_create_reference_device: true,
        has_image_import_device_functions: true,
    }
}

fn unsupported_probe() -> VulkanRuntimeProbe {
    VulkanRuntimeProbe {
        loader_present: false,
        can_enumerate_instance_extensions: false,
        can_create_instance: false,
        physical_device_count: 0,
        instance_extension_count: 0,
        has_get_physical_device_properties2: false,
        has_external_memory_capabilities: false,
        has_external_semaphore_capabilities: false,
        has_external_fence_capabilities: false,
        has_external_memory_dma_buf: false,
        has_external_memory_fd: false,
        has_image_drm_format_modifier: false,
        has_get_memory_requirements2: false,
        has_bind_memory2: false,
        has_queue_family_foreign: false,
        has_external_semaphore_fd: false,
        has_external_fence_fd: false,
        has_timeline_semaphore: false,
        can_create_reference_device: false,
        has_image_import_device_functions: false,
    }
}

fn test_grant(sync_kind: u32, handle_kind: u32, stride: u32) -> LinuxAttachGrant {
    LinuxAttachGrant {
        consumer_id: 1,
        consumer_slot: 0,
        ring_fd_index: 0,
        ring_map_len: 4096,
        pools: vec![LinuxPoolDescriptor {
            pool_id: 77,
            surfaces: vec![LinuxSurfaceDescriptor {
                handle_kind,
                width: 64,
                height: 32,
                pixel_format: 1,
                modifier: 0,
                planes: vec![LinuxPlaneDescriptor { fd_index: 1, offset: 0, stride }],
            }],
        }],
        producer_sync: LinuxSyncDescriptor { sync_kind, sync_id: 99, fd_index: 2 },
    }
}

#[test]
fn vulkan_runtime_probe_reports_consistent_capabilities() {
    for probe in [supported_probe(), unsupported_probe()] {
        if !probe.loader_present {
            assert!(!probe.supports_dmabuf_import());
            assert!(!probe.supports_reference_consumer_primitives());
            continue;
        }
        if probe.supports_reference_consumer_primitives() {
            assert!(probe.supports_dmabuf_import());
            assert!(probe.supports_external_sync_for(FT_NATIVE_SYNC_DRM_SYNCOBJ_TIMELINE));
        }
        assert!(!probe.supports_external_sync_for(0));
    }
}

#[test]
fn dmabuf_import_requires_modifier_and_memory_binding_extensions() {
    let mut probe = supported_probe();
    assert!(probe.supports_dmabuf_import());

    probe.has_image_drm_format_modifier = false;
    assert!(!probe.supports_dmabuf_import());

    let mut probe = supported_probe();
    probe.has_get_memory_requirements2 = false;
    assert!(!probe.supports_dmabuf_import());

    let mut probe = supported_probe();
    probe.has_bind_memory2 = false;
    assert!(!probe.supports_dmabuf_import());

    let mut probe = supported_probe();
    probe.has_queue_family_foreign = false;
    assert!(!probe.supports_dmabuf_import());

    let mut probe = supported_probe();
    probe.can_create_reference_device = false;
    assert!(!probe.supports_dmabuf_import());

    let mut probe = supported_probe();
    probe.has_image_import_device_functions = false;
    assert!(!probe.supports_dmabuf_import());
}

#[test]
fn rejects_reference_consumer_grant_without_dmabuf_surface() {
    let wrong_kind = test_grant(FT_NATIVE_SYNC_DRM_SYNCOBJ_TIMELINE, 999, 1);
    assert!(validate_reference_surfaces(&wrong_kind).is_err());

    let zero_stride = test_grant(FT_NATIVE_SYNC_DRM_SYNCOBJ_TIMELINE, FT_NATIVE_HANDLE_DMABUF, 0);
    assert!(validate_reference_surfaces(&zero_stride).is_err());
}

#[test]
fn reference_consumer_rejects_unsupported_runtime_before_opening_drm() {
    let grant = test_grant(FT_NATIVE_SYNC_DRM_SYNCOBJ_TIMELINE, FT_NATIVE_HANDLE_DMABUF, 1);
    let error = check_reference_grant(&unsupported_probe(), &grant, 1).unwrap_err();
    assert!(error.to_message().contains("does not support dmabuf image import"));
}

#[test]
fn reference_surfaces_keep_pool_slot_and_planes() {
    let grant = test_grant(FT_NATIVE_SYNC_DRM_SYNCOBJ_TIMELINE, FT_NATIVE_HANDLE_DMABUF, 256);
    let surfaces = validate_reference_surfaces(&grant).unwrap();
    assert_eq!(surfaces.len(), 1);
    assert_eq!((surfaces[0].pool_id, surfaces[0].slot_id, surfaces[0].width, surfaces[0].height), (77, 0, 64, 32));
    assert_eq!((surfaces[0].planes[0].fd_index, surfaces[0].planes[0].stride), (1, 256));
    assert!(check_reference_grant(&supported_probe(), &grant, 3).is_ok());
    let mut empty = grant;
    empty.pools.clear();
    assert!(validate_reference_surfaces(&empty).unwrap_err().to_message().contains("grant contains no dmabuf surfaces"));
}

#[test]
fn attach_transport_follows_the_platform() {
    assert!(attach_transport_supported(FT_NATIVE_ATTACH_TRANSPORT_UNIX_SOCKET, false, true));
    assert!(!attach_transport_supported(FT_NATIVE_ATTACH_TRANSPORT_UNIX_SOCKET, true, false));
    assert!(attach_transport_supported(FT_NATIVE_ATTACH_TRANSPORT_MACOS_XPC, true, false));
    assert!(!attach_transport_supported(FT_NATIVE_ATTACH_TRANSPORT_MACOS_XPC, false, true));
    assert!(!attach_transport_supported(99, true, true));
}
