use dway_server::entity::Entity;
use dway_server::util::rect::{IRect, IVec2};
use dway_server::wl::buffer::{
    check_create_buffer, check_pool_size, is_supported_format, shm_formats, CreateBufferCheck,
    ShmBufferError, ShmFormat, ShmPoolError, WlBuffer, WlShmPool,
};
use dway_server::wl::surface::{
    cleanup_buffer, cleanup_surface, update_buffer_size, ImageExtent, WlSubsurface, WlSurface,
};

#[test]
fn surface_requests_wait_for_commit() {
    let mut s = WlSurface::new();
    let out = s.attach(Some((42, Entity(7))), 3, 4, 4);
    assert!(!out.invalid_offset);
    assert_eq!(out.released_wl_buffer, None);
    s.damage(0, 0, 10, 10);
    s.frame(99);
    s.set_input_region(Some(Entity(5)));
    s.set_buffer_scale(2);
    assert_eq!(s.commited.buffer, None);
    assert!(s.commited.damages.is_empty());
    assert_eq!(s.commited.scale, None);
    let c = s.commit(17, None);
    assert_eq!(c.old_buffer, None);
    assert_eq!(c.buffer, Some(Entity(7)));
    assert_eq!(c.input_region, Some(Entity(5)));
    assert_eq!(s.commited.wl_buffer, Some(42));
    assert_eq!(s.commited.position, Some(IVec2::new(3, 4)));
    assert_eq!(s.commited.damages, vec![IRect::new(0, 0, 10, 10)]);
    assert_eq!(s.commited.callbacks, vec![99]);
    assert_eq!(s.commited.scale, Some(2));
    assert!(s.just_commit);
    assert_eq!(s.commit_time, 17);
    assert_eq!(s.commit_count, 1);
}

#[test]
fn surface_second_commit_keeps_state() {
    let mut s = WlSurface::new();
    s.attach(Some((1, Entity(1))), 0, 0, 5);
    s.commit(1, None);
    let c = s.commit(2, None);
    assert_eq!(c.old_buffer, Some(Entity(1)));
    assert_eq!(c.buffer, Some(Entity(1)));
    assert_eq!(c.released_wl_buffer, None);
    assert_eq!(s.commit_count, 2);
}

#[test]
fn surface_attach_nonzero_offset_on_v5_is_an_error() {
    let mut s = WlSurface::new();
    let out = s.attach(None, 1, 0, 5);
    assert!(out.invalid_offset);
    assert_eq!(s.pending.position, None);
    let out = s.attach(None, 0, 0, 5);
    assert!(!out.invalid_offset);
}

#[test]
fn surface_reattach_releases_previous_pending_buffer() {
    let mut s = WlSurface::new();
    s.attach(Some((1, Entity(1))), 0, 0, 5);
    let out = s.attach(Some((2, Entity(2))), 0, 0, 5);
    assert_eq!(out.released_wl_buffer, Some(1));
    s.commit(0, None);
    s.attach(Some((3, Entity(3))), 0, 0, 5);
    let c = s.commit(0, None);
    assert_eq!(c.released_wl_buffer, Some(2));
}

#[test]
fn surface_detach_clears_buffer() {
    let mut s = WlSurface::new();
    s.attach(Some((1, Entity(1))), 0, 0, 5);
    s.commit(0, None);
    s.attach(None, 0, 0, 5);
    let c = s.commit(0, None);
    assert_eq!(c.old_buffer, Some(Entity(1)));
    assert_eq!(c.buffer, None);
    assert_eq!(s.commited.wl_buffer, None);
}

#[test]
fn surface_offsets_accumulate() {
    let mut s = WlSurface::new();
    s.set_offset(3, 4);
    s.commit(0, None);
    s.set_offset(-1, 10);
    s.commit(0, None);
    assert_eq!(s.commited.offset, Some(IVec2::new(2, 14)));
}

#[test]
fn surface_popup_configured_once_with_size() {
    let mut s = WlSurface::new();
    assert_eq!(s.commit(0, Some(false)).popup_configure, Some(IVec2::new(0, 0)));
    s.resize(IVec2::new(30, 40));
    assert_eq!(s.commit(0, Some(false)).popup_configure, Some(IVec2::new(30, 40)));
    assert_eq!(s.commit(0, Some(true)).popup_configure, None);
    assert_eq!(s.commit(0, None).popup_configure, None);
}

#[test]
fn surface_resize_damages_whole_image() {
    let mut s = WlSurface::new();
    let e = s.resize(IVec2::new(640, 480));
    assert_eq!(e, ImageExtent { width: 640, height: 480 });
    assert_eq!(s.size, Some(IVec2::new(640, 480)));
    assert_eq!(s.commited.damages, vec![IRect::new(0, 0, 640, 480)]);
    assert_eq!(s.commit_count, 0);
}

#[test]
fn update_buffer_size_only_on_change() {
    let mut s = WlSurface::new();
    assert_eq!(update_buffer_size(&mut s, None), None);
    assert_eq!(update_buffer_size(&mut s, Some(IVec2::new(10, 20))), Some(ImageExtent { width: 10, height: 20 }));
    assert_eq!(update_buffer_size(&mut s, Some(IVec2::new(10, 20))), None);
    assert_eq!(s.commited.damages.len(), 1);
}

#[test]
fn window_area_and_geometry() {
    let mut s = WlSurface::new();
    s.resize(IVec2::new(100, 100));
    assert_eq!(s.window_area_in_image(), IRect::new(0, 0, 100, 100));
    assert_eq!(s.image_rect(), IRect::new(0, 0, 100, 100));
    s.set_window_geometry(IRect::new(10, 10, 80, 200));
    let mut geometry = Some(IRect::new(500, 600, 1, 1));
    s.commit(0, None);
    s.commit_window_geometry(&mut geometry);
    assert_eq!(s.commited.window_geometry, Some(IRect::new(10, 10, 80, 200)));
    assert_eq!(s.window_area_in_image(), IRect::new(10, 10, 80, 90));
    assert_eq!(geometry, Some(IRect::new(500, 600, 80, 90)));
    assert_eq!(s.image_rect(), IRect::new(-10, -10, 100, 100));
    assert_eq!(s.calculate_toplevel_size(IVec2::new(300, 300)), IVec2::new(300, 410));
}

#[test]
fn geometry_follows_image_without_window_geometry() {
    let mut s = WlSurface::new();
    s.resize(IVec2::new(64, 32));
    let mut geometry = Some(IRect::new(5, 6, 1, 1));
    s.commit_window_geometry(&mut geometry);
    assert_eq!(geometry, Some(IRect::new(5, 6, 64, 32)));
    let mut none: Option<IRect> = None;
    s.commit_window_geometry(&mut none);
    assert_eq!(none, None);
}

#[test]
fn cleanup_releases_attached_buffers() {
    assert_eq!(cleanup_buffer(&vec![(1, 0), (2, 3), (3, 1), (4, 0)]), vec![2, 3]);
    let mut s = WlSurface::new();
    s.damage(0, 0, 1, 1);
    s.frame(5);
    s.commit(0, None);
    cleanup_surface(&mut s);
    assert!(s.commited.damages.is_empty());
    assert!(s.commited.callbacks.is_empty());
    assert!(!s.just_commit);
}

#[test]
fn subsurface_requests() {
    let mut sub = WlSubsurface::new();
    sub.set_position(4, 5);
    assert_eq!(sub.position, Some(IVec2::new(4, 5)));
    sub.set_sync();
    assert!(sub.sync);
    sub.desync = true;
    sub.set_desync();
    assert!(!sub.desync);
}

#[test]
fn shm_format_list() {
    let formats = shm_formats();
    assert_eq!(formats.len(), 14);
    assert_eq!(formats[0], 0);
    assert_eq!(formats[1], 1);
    assert!(is_supported_format(0x3231564e));
    assert!(!is_supported_format(0x12345678));
}

#[test]
fn create_buffer_accepts_a_fitting_buffer() {
    let r = check_create_buffer(0, 10, 10, 40, 400, ShmFormat::Value(0));
    assert_eq!(
        r,
        CreateBufferCheck {
            error: None,
            buffer: Some(WlBuffer { offset: 0, width: 10, height: 10, stride: 40, format: 0, attach_by: None }),
        }
    );
}

#[test]
fn create_buffer_errors() {
    let err = |o, w, h, s, size| check_create_buffer(o, w, h, s, size, ShmFormat::Value(0)).error;
    assert_eq!(err(-1, 10, 10, 40, 400), Some(ShmBufferError::NegativeOffset));
    assert_eq!(err(0, 0, 10, 40, 400), Some(ShmBufferError::InvalidSize { width: 0, height: 10 }));
    assert_eq!(err(0, 10, 10, 5, 400), Some(ShmBufferError::StrideTooSmall { width: 10, stride: 5 }));
    assert_eq!(err(0, 4, 0x4000_0000, 4, 400), Some(ShmBufferError::HeightTooLarge { max: i32::MAX / 4 }));
    assert_eq!(err(1, 10, 10, 40, 400), Some(ShmBufferError::OffsetTooLarge));
    let unknown = check_create_buffer(0, 10, 10, 40, 400, ShmFormat::Unknown(77));
    assert_eq!(unknown, CreateBufferCheck { error: Some(ShmBufferError::UnknownFormat(77)), buffer: None });
    let unsupported = check_create_buffer(0, 10, 10, 40, 400, ShmFormat::Value(0x12345678));
    assert_eq!(unsupported.error, Some(ShmBufferError::UnsupportedFormat(0x12345678)));
    assert!(unsupported.buffer.is_some());
}

#[test]
fn pool_sizes() {
    assert_eq!(check_pool_size(0), Err(ShmPoolError::InvalidSize));
    assert_eq!(check_pool_size(4096), Ok(4096));
    let pool = WlShmPool { size: 4096 };
    assert_eq!(pool.check_resize(-5), Err(ShmPoolError::InvalidSize));
    assert_eq!(pool.check_resize(4096), Err(ShmPoolError::CannotShrink));
    assert_eq!(pool.check_resize(8192), Ok(8192));
}

#[test]
fn cleanup_keeps_committed_state() {
    let mut s = WlSurface::new();
    s.damage(0, 0, 1, 1);
    s.frame(5);
    s.set_buffer_scale(2);
    s.set_offset(3, 4);
    s.attach(None, 6, 7, 4);
    s.set_opaque_region(Some(Entity(8)));
    s.set_input_region(Some(Entity(9)));
    s.commit(42, None);
    s.set_buffer_scale(3);
    cleanup_surface(&mut s);
    assert_eq!(s.commit_time, 42);
    assert_eq!(s.commit_count, 1);
    assert_eq!(s.commited.scale, Some(2));
    assert_eq!(s.commited.offset, Some(IVec2::new(3, 4)));
    assert_eq!(s.commited.position, Some(IVec2::new(6, 7)));
    assert_eq!(s.commited.opaque_region, Some(Entity(8)));
    assert_eq!(s.commited.input_region, Some(Entity(9)));
    assert_eq!(s.pending.scale, Some(3));
}
