use kamel_render::adapter::{AdapterInfo, DeviceType, MemoryHeap};
use kamel_render::device::{
    Device, DeviceExtensions, DeviceFeatures, DeviceMemoryProperties, DeviceProperties,
    DeviceQueueFamilyProperties,
};
use kamel_render::error::Error;
use kamel_render::instance::{Instance, InstanceExtensions, InstanceLayers};
use kamel_render::queue::{
    find_direct_queue_family_index, find_queue_family_index, find_queue_family_indices,
    queue_create_family_indices, QueueFamily, QueueFlags,
};
use kamel_render::surface::Surface;

fn heap(size: u64, device_local: bool) -> MemoryHeap {
    MemoryHeap { size, device_local }
}

fn adapter(device_type: DeviceType, heaps: Vec<MemoryHeap>) -> AdapterInfo {
    AdapterInfo { device_type, heaps }
}

fn instance_over(adapters: Vec<AdapterInfo>) -> Instance {
    let layers = InstanceLayers::new(Vec::new());
    let extensions = InstanceExtensions::new(Vec::new(), Vec::new(), &layers);
    Instance::new(layers, extensions, &Vec::new(), 0, adapters)
}

fn family(
    graphics: bool,
    compute: bool,
    transfer: bool,
    presentation: bool,
    queue_count: u32,
) -> QueueFamily {
    QueueFamily { graphics, compute, transfer, presentation, queue_count }
}

#[test]
fn discrete_with_largest_local_heap_wins() {
    let instance = instance_over(vec![
        adapter(DeviceType::IntegratedGpu, vec![heap(100, true)]),
        adapter(DeviceType::DiscreteGpu, vec![heap(8, true), heap(4, false), heap(8, true)]),
        adapter(DeviceType::DiscreteGpu, vec![heap(10, true)]),
    ]);
    // adapter 1 sums 16 device-local bytes, adapter 2 only 10
    assert_eq!(instance.find_optimal_physical_device(), 1);
}

#[test]
fn discrete_tie_returns_first_seen() {
    let instance = instance_over(vec![
        adapter(DeviceType::Cpu, vec![heap(50, true)]),
        adapter(DeviceType::DiscreteGpu, vec![heap(10, true)]),
        adapter(DeviceType::DiscreteGpu, vec![heap(10, true)]),
    ]);
    assert_eq!(instance.find_optimal_physical_device(), 1);
}

#[test]
fn no_discrete_returns_first_adapter() {
    let instance = instance_over(vec![
        adapter(DeviceType::IntegratedGpu, vec![heap(100, true)]),
        adapter(DeviceType::VirtualGpu, vec![heap(200, true)]),
    ]);
    assert_eq!(instance.find_optimal_physical_device(), 0);
}

#[test]
fn discrete_without_local_heap_is_not_chosen() {
    let instance = instance_over(vec![
        adapter(DeviceType::IntegratedGpu, vec![heap(100, true)]),
        adapter(DeviceType::DiscreteGpu, vec![heap(100, false)]),
    ]);
    // the only discrete adapter has no device-local heap: fall back to the first
    assert_eq!(instance.find_optimal_physical_device(), 0);
}

#[test]
fn direct_family_needs_presentation() {
    // all categories present but nobody can present
    let families = vec![family(true, true, true, false, 4), family(true, true, true, false, 1)];
    assert_eq!(find_direct_queue_family_index(&families), None);
    assert_eq!(find_queue_family_indices(&families), None);
}

#[test]
fn no_family_with_all_categories_fails() {
    let families = vec![
        family(true, false, true, true, 4),
        family(false, true, true, true, 4),
        family(true, true, false, true, 4),
    ];
    assert_eq!(find_queue_family_indices(&families), None);
}

#[test]
fn empty_family_list_fails() {
    let families = Vec::new();
    assert_eq!(find_queue_family_indices(&families), None);
}

#[test]
fn direct_family_picks_greatest_queue_count() {
    let families = vec![
        family(true, true, true, true, 2),
        family(true, true, true, true, 8),
        family(true, true, true, true, 8),
    ];
    assert_eq!(find_direct_queue_family_index(&families), Some(1));
}

#[test]
fn zero_queue_family_is_never_picked() {
    let families = vec![family(true, true, true, true, 0)];
    assert_eq!(find_direct_queue_family_index(&families), None);
}

#[test]
fn dedicated_compute_and_transfer_are_preferred() {
    let families = vec![
        family(true, true, true, true, 4),
        family(false, true, false, false, 2),
        family(false, false, true, false, 2),
    ];
    assert_eq!(find_queue_family_indices(&families), Some((0, 1, 2)));
}

#[test]
fn compute_tiers_degrade_in_order() {
    // no compute-only family: a compute+transfer family (no graphics) wins tier two
    let families = vec![family(true, true, true, true, 4), family(false, true, true, false, 2)];
    assert_eq!(find_queue_family_indices(&families), Some((0, 1, 1)));
}

#[test]
fn compute_without_transfer_is_third_tier() {
    // compute families all share graphics; the one without transfer wins tier three
    let families = vec![family(true, true, true, true, 4), family(true, true, false, false, 2)];
    let (direct, compute, transfer) = find_queue_family_indices(&families).unwrap();
    assert_eq!(direct, 0);
    assert_eq!(compute, 1);
    assert_eq!(transfer, 0);
}

#[test]
fn transfer_tiers_degrade_in_order() {
    // no transfer-only family: a compute+transfer family (no graphics) wins
    // the second transfer tier; compute picks the same family first
    let families = vec![family(true, true, true, true, 4), family(false, true, true, false, 2)];
    let (_, _, transfer) = find_queue_family_indices(&families).unwrap();
    assert_eq!(transfer, 1);

    // transfer families all share graphics; the one without compute wins the
    // third tier
    let families = vec![family(true, true, true, true, 4), family(true, false, true, false, 2)];
    let (direct, compute, transfer) = find_queue_family_indices(&families).unwrap();
    assert_eq!(direct, 0);
    assert_eq!(compute, 0);
    assert_eq!(transfer, 1);
}

#[test]
fn dedicated_tier_prefers_greater_queue_count() {
    let families = vec![
        family(true, true, true, true, 4),
        family(false, true, false, false, 2),
        family(false, true, false, false, 6),
        family(false, true, false, false, 6),
    ];
    let (_, compute, _) = find_queue_family_indices(&families).unwrap();
    assert_eq!(compute, 2);
}

#[test]
fn direct_family_serves_compute_and_transfer_when_exclusive() {
    // the direct family is the only one with compute or transfer at all
    let families = vec![family(true, true, true, true, 4), family(true, false, false, true, 8)];
    assert_eq!(find_queue_family_indices(&families), Some((0, 0, 0)));
}

#[test]
fn masked_search_respects_undesired_flags() {
    let families = vec![family(false, true, true, false, 4), family(false, true, false, false, 1)];
    let desired = QueueFlags { graphics: false, compute: true, transfer: false };
    let undesired = QueueFlags { graphics: true, compute: false, transfer: true };
    assert_eq!(find_queue_family_index(&families, desired, undesired), Some(1));
    let none_desired = QueueFlags { graphics: true, compute: true, transfer: false };
    assert_eq!(find_queue_family_index(&families, none_desired, undesired), None);
}

#[test]
fn queue_plan_lists_each_distinct_family_once() {
    assert_eq!(queue_create_family_indices(0, 0, 0), vec![0]);
    assert_eq!(queue_create_family_indices(0, 1, 0), vec![0, 1]);
    assert_eq!(queue_create_family_indices(0, 0, 2), vec![0, 2]);
    assert_eq!(queue_create_family_indices(3, 1, 2), vec![3, 1, 2]);
    // one dedicated family serving both compute and transfer appears once
    assert_eq!(queue_create_family_indices(0, 1, 1), vec![0, 1]);
}

#[test]
fn shared_dedicated_family_gets_one_descriptor() {
    // one family beside the direct one carries compute+transfer: both
    // selections land on it, and the plan must not name it twice
    let instance = empty_instance();
    let surface = Surface::new(instance.clone());
    let families = DeviceQueueFamilyProperties {
        queue_family_properties: vec![
            family(true, true, true, true, 4),
            family(false, true, true, false, 2),
        ],
    };
    let device = Device::new(
        instance,
        surface,
        0,
        DeviceExtensions::new(Vec::new()),
        DeviceProperties { device_type: DeviceType::DiscreteGpu },
        DeviceMemoryProperties { heaps: Vec::new() },
        families,
        DeviceFeatures::default(),
        DeviceFeatures::default(),
    )
    .unwrap();
    assert_eq!(device.queue_family_indices(), (0, 1, 1));
    assert_eq!(device.queue_create_family_indices(), &vec![0, 1]);
}

fn empty_instance() -> Instance {
    instance_over(Vec::new())
}

#[test]
fn device_creation_succeeds_with_direct_family() {
    let instance = empty_instance();
    let surface = Surface::new(instance.clone());
    let families = DeviceQueueFamilyProperties {
        queue_family_properties: vec![
            family(true, true, true, true, 4),
            family(false, true, false, false, 2),
        ],
    };
    let device = Device::new(
        instance,
        surface,
        0,
        DeviceExtensions::new(Vec::new()),
        DeviceProperties { device_type: DeviceType::DiscreteGpu },
        DeviceMemoryProperties { heaps: vec![heap(16, true)] },
        families,
        DeviceFeatures::default(),
        DeviceFeatures::default(),
    )
    .unwrap();
    assert_eq!(device.queue_family_indices(), (0, 1, 0));
    assert_eq!(device.queue_create_family_indices(), &vec![0, 1]);
    assert_eq!(device.physical_device(), 0);
    assert_eq!(device.queue_family_properties().queue_family_properties.len(), 2);
    assert!(device.extensions().enabled().is_empty());
    assert!(device.supported_features().flags.is_empty());
    assert_eq!(device.memory_properties().heaps, vec![heap(16, true)]);
}

#[test]
fn device_creation_fails_without_direct_family() {
    let instance = empty_instance();
    let surface = Surface::new(instance.clone());
    let families = DeviceQueueFamilyProperties {
        queue_family_properties: vec![family(true, true, true, false, 4)],
    };
    let result = Device::new(
        instance,
        surface,
        0,
        DeviceExtensions::new(Vec::new()),
        DeviceProperties { device_type: DeviceType::Other },
        DeviceMemoryProperties { heaps: Vec::new() },
        families,
        DeviceFeatures::default(),
        DeviceFeatures::default(),
    );
    match result {
        Err(err) => assert_eq!(err, Error::NoSuitableQueueFamilies),
        Ok(_) => panic!("device creation should fail without a direct family"),
    }
}
