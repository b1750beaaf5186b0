use std::sync::Arc;

use kamel_render::binary_semaphore::{BinarySemaphore, BinarySemaphoreDesc};
use kamel_render::command_buffer::{CommandBuffer, CommandBufferDesc};
use kamel_render::command_pool::{CommandPool, CommandPoolDesc, CommandPoolFlags};
use kamel_render::device::{
    Device, DeviceExtensions, DeviceFeatures, DeviceMemoryProperties, DeviceProperties,
    DeviceQueueFamilyProperties,
};
use kamel_render::adapter::DeviceType;
use kamel_render::error::Error;
use kamel_render::fence::{Fence, FenceDesc};
use kamel_render::instance::{Instance, InstanceExtensions, InstanceLayers};
use kamel_render::queue::QueueFamily;
use kamel_render::surface::Surface;
use kamel_render::timeline_semaphore::{TimelineSemaphore, TimelineSemaphoreDesc};

fn names(list: &[&str]) -> Vec<String> {
    list.iter().map(|s| s.to_string()).collect()
}

/// A device whose instance either negotiated the diagnostics extension or
/// did not, over one universal queue family.
fn device_with_diagnostics(diagnostics: bool) -> Device {
    let layers = InstanceLayers::new(Vec::new());
    let mut extensions =
        InstanceExtensions::new(names(&["VK_EXT_debug_utils"]), Vec::new(), &layers);
    if diagnostics {
        assert!(extensions.try_push_ext_debug_utils());
    }
    let instance = Instance::new(layers, extensions, &Vec::new(), 0, Vec::new());
    let surface = Surface::new(instance.clone());
    let families = DeviceQueueFamilyProperties {
        queue_family_properties: vec![QueueFamily {
            graphics: true,
            compute: true,
            transfer: true,
            presentation: true,
            queue_count: 2,
        }],
    };
    Device::new(
        instance,
        surface,
        0,
        DeviceExtensions::new(Vec::new()),
        DeviceProperties { device_type: DeviceType::DiscreteGpu },
        DeviceMemoryProperties { heaps: Vec::new() },
        families,
        DeviceFeatures::default(),
        DeviceFeatures::default(),
    )
    .unwrap()
}

fn pool_desc(label: Option<&str>) -> CommandPoolDesc {
    CommandPoolDesc {
        flags: CommandPoolFlags { transient: false, reset_command_buffer: true },
        family_index: 0,
        label,
    }
}

#[test]
fn labels_are_noops_without_diagnostics() {
    let device = device_with_diagnostics(false);
    let pool = CommandPool::new(device.clone(), &pool_desc(Some("pool")));
    assert_eq!(pool.label(), None);
    let buffer = CommandBuffer::new(
        device.clone(),
        Arc::new(pool),
        &CommandBufferDesc { label: Some("buffer") },
    );
    assert_eq!(buffer.label(), None);
    let semaphore =
        BinarySemaphore::new(device.clone(), &BinarySemaphoreDesc { label: Some("sem") });
    assert_eq!(semaphore.label(), None);
    let fence = Fence::new(device.clone(), &FenceDesc { signaled: false, label: Some("fence") });
    assert_eq!(fence.label(), None);
    let timeline = TimelineSemaphore::new(
        device,
        &TimelineSemaphoreDesc { initial_value: 0, label: Some("timeline") },
    );
    assert_eq!(timeline.label(), None);
}

#[test]
fn labels_are_attached_with_diagnostics() {
    let device = device_with_diagnostics(true);
    let pool = CommandPool::new(device.clone(), &pool_desc(Some("pool")));
    assert_eq!(pool.label(), Some(&"pool".to_string()));
    let unnamed = CommandPool::new(device, &pool_desc(None));
    assert_eq!(unnamed.label(), None);
}

#[test]
fn pool_outlives_buffers_through_shared_ownership() {
    let device = device_with_diagnostics(false);
    let pool = Arc::new(CommandPool::new(device.clone(), &pool_desc(None)));
    let probe = Arc::downgrade(&pool);

    let buffer_a = CommandBuffer::new(device.clone(), pool.clone(), &CommandBufferDesc {
        label: None,
    });
    let buffer_b = CommandBuffer::new(device.clone(), pool.clone(), &CommandBufferDesc {
        label: None,
    });
    assert_eq!(Arc::strong_count(&pool), 3);

    // dropping the caller's own handle leaves the pool alive for the buffers
    drop(pool);
    assert_eq!(Arc::strong_count(buffer_a.command_pool()), 2);
    assert_eq!(buffer_a.command_pool().family_index(), 0);
    assert_eq!(buffer_b.command_pool().family_index(), 0);
    assert!(probe.upgrade().is_some());

    drop(buffer_a);
    assert_eq!(Arc::strong_count(buffer_b.command_pool()), 1);
    assert!(probe.upgrade().is_some());

    // the pool goes away only with the last buffer holding it
    drop(buffer_b);
    assert!(probe.upgrade().is_none());
}

#[test]
fn fence_starts_in_requested_state() {
    let device = device_with_diagnostics(false);
    let signaled = Fence::new(device.clone(), &FenceDesc { signaled: true, label: None });
    assert!(signaled.wait_for(1_000).is_ok());
    let unsignaled = Fence::new(device, &FenceDesc { signaled: false, label: None });
    assert_eq!(unsignaled.wait_for(1_000), Err(Error::Timeout));
}

#[test]
fn fence_reset_clears_the_signal() {
    let device = device_with_diagnostics(false);
    let mut fence = Fence::new(device, &FenceDesc { signaled: true, label: None });
    assert!(fence.wait_for(0).is_ok());
    fence.reset();
    assert_eq!(fence.wait_for(0), Err(Error::Timeout));
}

#[test]
fn timeline_semaphore_round_trip() {
    let device = device_with_diagnostics(false);
    let mut timeline = TimelineSemaphore::new(
        device,
        &TimelineSemaphoreDesc { initial_value: 0, label: None },
    );
    assert_eq!(timeline.value(), 0);
    timeline.set_value(5);
    assert_eq!(timeline.value(), 5);
    assert!(timeline.wait_for_value(5, 1_000).is_ok());
    assert!(timeline.wait_for_value(3, 1_000).is_ok());
    // a target the counter never reaches times out
    assert_eq!(timeline.wait_for_value(6, 1_000), Err(Error::Timeout));
}

#[test]
fn timeline_semaphore_keeps_initial_value() {
    let device = device_with_diagnostics(false);
    let timeline = TimelineSemaphore::new(
        device,
        &TimelineSemaphoreDesc { initial_value: 41, label: None },
    );
    assert_eq!(timeline.value(), 41);
    assert!(timeline.wait_for_value(41, 0).is_ok());
}

#[test]
fn wrappers_reference_their_device() {
    let device = device_with_diagnostics(false);
    let pool = CommandPool::new(device.clone(), &pool_desc(None));
    assert_eq!(pool.device().physical_device(), device.physical_device());
    assert_eq!(pool.flags(), CommandPoolFlags { transient: false, reset_command_buffer: true });
    let semaphore = BinarySemaphore::new(device.clone(), &BinarySemaphoreDesc { label: None });
    assert_eq!(semaphore.device().physical_device(), 0);
}
