use quad_render::device::{GraphicsDevice, GraphicsError};
use quad_render::swapchain::{PresentMode, surface_descriptor, TextureFormat, TextureUsage};

#[test]
fn descriptor_is_the_canonical_configuration() {
    let d = surface_descriptor(640, 480);
    assert_eq!(d.width, 640);
    assert_eq!(d.height, 480);
    assert_eq!(d.format, TextureFormat::Bgra8Unorm);
    assert_eq!(d.usage, TextureUsage::RenderAttachment);
    assert_eq!(d.present_mode, PresentMode::Mailbox);
}

#[test]
fn new_without_adapter_reports_adapter_unavailable() {
    let r = GraphicsDevice::new(800, 600, false, false);
    assert!(matches!(r, Err(GraphicsError::AdapterUnavailable)));
}

#[test]
fn new_without_device_reports_device_creation_failed() {
    let r = GraphicsDevice::new(800, 600, true, false);
    assert!(matches!(r, Err(GraphicsError::DeviceCreationFailed)));
}

#[test]
fn new_device_matches_the_window_size() {
    let dev = GraphicsDevice::new(800, 600, true, true).unwrap();
    assert_eq!(dev.swap_chain_descriptor.width, 800);
    assert_eq!(dev.swap_chain_descriptor.height, 600);
    assert_eq!(dev.swap_chain.config, dev.swap_chain_descriptor);
    assert_eq!(dev.queue.submissions, 0);
    assert_eq!(dev.frames_begun, 0);
}

#[test]
fn resize_updates_descriptor_and_rebuilds_swapchain() {
    let mut dev = GraphicsDevice::new(800, 600, true, true).unwrap();
    let generation_before = dev.swap_chain.generation;
    dev.resize(400, 300);
    assert_eq!(dev.swap_chain_descriptor.width, 400);
    assert_eq!(dev.swap_chain_descriptor.height, 300);
    assert_eq!(dev.swap_chain.config, dev.swap_chain_descriptor);
    assert_eq!(dev.swap_chain.generation, generation_before + 1);
}

#[test]
fn resize_twice_with_same_size_is_idempotent() {
    let mut once = GraphicsDevice::new(800, 600, true, true).unwrap();
    once.resize(400, 300);
    let descriptor_after_once = once.swap_chain_descriptor;
    let config_after_once = once.swap_chain.config;

    once.resize(400, 300);
    // The descriptor is unchanged, and the rebuilt swapchain is
    // equivalent: built from the same configuration, though a fresh
    // object (its generation moved).
    assert_eq!(once.swap_chain_descriptor, descriptor_after_once);
    assert_eq!(once.swap_chain.config, config_after_once);
}

#[test]
fn begin_frame_without_finish_submits_nothing() {
    let mut dev = GraphicsDevice::new(800, 600, true, true).unwrap();
    {
        let encoder = dev.begin_frame(true).unwrap();
        assert_eq!(encoder.frame.width, 800);
        assert_eq!(encoder.frame.height, 600);
        assert_eq!(encoder.commands.len(), 0);
        // The encoder is dropped here, never finished.
    }
    assert_eq!(dev.frames_begun, 1);
    assert_eq!(dev.queue.submissions, 0);
}

#[test]
fn each_finish_submits_exactly_one_command_buffer() {
    let mut dev = GraphicsDevice::new(800, 600, true, true).unwrap();
    let encoder = dev.begin_frame(true).unwrap();
    encoder.finish(&mut dev);
    assert_eq!(dev.frames_begun, 1);
    assert_eq!(dev.queue.submissions, 1);

    let second = dev.begin_frame(true).unwrap();
    second.finish(&mut dev);
    assert_eq!(dev.frames_begun, 2);
    assert_eq!(dev.queue.submissions, 2);
}

#[test]
fn failed_acquisition_reports_surface_lost_and_changes_nothing() {
    let mut dev = GraphicsDevice::new(800, 600, true, true).unwrap();
    let r = dev.begin_frame(false);
    assert!(matches!(r, Err(GraphicsError::SurfaceLost)));
    assert_eq!(dev.frames_begun, 0);
    assert_eq!(dev.queue.submissions, 0);
}

#[test]
fn surface_recovery_rebuilds_at_the_stored_size() {
    let mut dev = GraphicsDevice::new(800, 600, true, true).unwrap();
    let generation_before = dev.swap_chain.generation;
    dev.recover_surface();
    assert_eq!(dev.swap_chain_descriptor.width, 800);
    assert_eq!(dev.swap_chain_descriptor.height, 600);
    assert_eq!(dev.swap_chain.config, dev.swap_chain_descriptor);
    assert_eq!(dev.swap_chain.generation, generation_before + 1);
}

#[test]
fn accessors_expose_device_and_descriptor() {
    let dev = GraphicsDevice::new(320, 200, true, true).unwrap();
    let _handle = dev.device();
    assert_eq!(*dev.swap_chain_descriptor(), surface_descriptor(320, 200));
}
