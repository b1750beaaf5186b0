use kamel_render::device::DeviceExtensions;
use kamel_render::instance::{Instance, InstanceExtensions, InstanceLayers};

fn names(list: &[&str]) -> Vec<String> {
    list.iter().map(|s| s.to_string()).collect()
}

#[test]
fn try_push_layer_succeeds_when_supported() {
    let mut layers = InstanceLayers::new(names(&["VK_LAYER_KHRONOS_validation", "VK_LAYER_other"]));
    assert!(!layers.khronos_validation());
    assert!(layers.try_push_khronos_validation());
    assert!(layers.khronos_validation());
    assert_eq!(layers.enabled(), &names(&["VK_LAYER_KHRONOS_validation"]));
}

#[test]
fn try_push_layer_rejects_when_absent() {
    let mut layers = InstanceLayers::new(names(&["VK_LAYER_other"]));
    assert!(!layers.try_push_khronos_validation());
    assert!(!layers.khronos_validation());
    assert!(layers.enabled().is_empty());
}

#[test]
fn repeated_push_appends_a_duplicate() {
    // the supported-check is re-evaluated each call, so a second push of an
    // already-enabled name appends it again
    let mut layers = InstanceLayers::new(names(&["VK_LAYER_KHRONOS_validation"]));
    assert!(layers.try_push_khronos_validation());
    assert!(layers.try_push_khronos_validation());
    assert_eq!(
        layers.enabled(),
        &names(&["VK_LAYER_KHRONOS_validation", "VK_LAYER_KHRONOS_validation"])
    );
}

#[test]
fn push_layer_enables_checked_name() {
    let mut layers = InstanceLayers::new(names(&["VK_LAYER_KHRONOS_validation"]));
    layers.push_khronos_validation();
    assert!(layers.khronos_validation());
}

#[test]
fn extension_found_in_loader_list() {
    let layers = InstanceLayers::new(Vec::new());
    let mut extensions =
        InstanceExtensions::new(names(&["VK_EXT_debug_utils"]), Vec::new(), &layers);
    assert!(extensions.try_push_ext_debug_utils());
    assert!(extensions.ext_debug_utils());
    assert_eq!(extensions.enabled(), &names(&["VK_EXT_debug_utils"]));
}

#[test]
fn extension_absent_changes_nothing() {
    let layers = InstanceLayers::new(Vec::new());
    let mut extensions = InstanceExtensions::new(names(&["VK_KHR_surface"]), Vec::new(), &layers);
    assert!(!extensions.try_push_ext_validation_features());
    assert!(!extensions.ext_validation_features());
    assert!(extensions.enabled().is_empty());
}

#[test]
fn layer_scoped_extension_needs_the_layer_enabled() {
    // the validation-features extension is visible only through the layer
    let mut with_layer = InstanceLayers::new(names(&["VK_LAYER_KHRONOS_validation"]));
    with_layer.push_khronos_validation();
    let mut extensions = InstanceExtensions::new(
        Vec::new(),
        names(&["VK_EXT_validation_features"]),
        &with_layer,
    );
    assert!(extensions.try_push_ext_validation_features());
    assert!(extensions.ext_validation_features());

    // without the layer, the layer-scoped list is discarded
    let without_layer = InstanceLayers::new(names(&["VK_LAYER_KHRONOS_validation"]));
    let mut extensions = InstanceExtensions::new(
        Vec::new(),
        names(&["VK_EXT_validation_features"]),
        &without_layer,
    );
    assert!(!extensions.try_push_ext_validation_features());
    assert!(!extensions.ext_validation_features());
}

#[test]
fn surface_capability_extension_round_trip() {
    let layers = InstanceLayers::new(Vec::new());
    let mut extensions =
        InstanceExtensions::new(names(&["VK_KHR_get_surface_capabilities2"]), Vec::new(), &layers);
    assert!(extensions.try_push_get_surface_capabilities2());
    assert!(extensions.khr_get_surface_capabilities2());
}

#[test]
fn surface_extension_opt_in_round_trip() {
    let layers = InstanceLayers::new(Vec::new());
    let mut extensions = InstanceExtensions::new(names(&["VK_KHR_surface"]), Vec::new(), &layers);
    assert!(extensions.try_push_khr_surface());
    assert!(extensions.khr_surface());
    assert_eq!(extensions.enabled(), &names(&["VK_KHR_surface"]));

    let mut bare = InstanceExtensions::new(Vec::new(), Vec::new(), &layers);
    assert!(!bare.try_push_khr_surface());
    assert!(!bare.khr_surface());
}

#[test]
fn required_platform_extensions_are_force_enabled() {
    let layers = InstanceLayers::new(Vec::new());
    let mut extensions = InstanceExtensions::new(Vec::new(), Vec::new(), &layers);
    assert!(!extensions.khr_surface());
    extensions.push_required_platform_extensions(&names(&["VK_KHR_surface", "VK_KHR_wayland_surface"]));
    assert!(extensions.khr_surface());
    assert_eq!(extensions.enabled(), &names(&["VK_KHR_surface", "VK_KHR_wayland_surface"]));
}

#[test]
fn instance_construction_appends_required_extensions() {
    let layers = InstanceLayers::new(Vec::new());
    let mut extensions = InstanceExtensions::new(names(&["VK_EXT_debug_utils"]), Vec::new(), &layers);
    extensions.push_ext_debug_utils();
    let instance = Instance::new(
        layers,
        extensions,
        &names(&["VK_KHR_surface", "VK_KHR_xlib_surface"]),
        4_202_496,
        Vec::new(),
    );
    assert_eq!(instance.api_version(), 4_202_496);
    assert_eq!(
        instance.extensions().enabled(),
        &names(&["VK_EXT_debug_utils", "VK_KHR_surface", "VK_KHR_xlib_surface"])
    );
    assert!(instance.extensions().khr_surface());
    assert!(instance.debug_messenger_installed());
    assert!(!instance.validation_features_chained());
}

#[test]
fn messenger_not_installed_without_diagnostics() {
    let layers = InstanceLayers::new(Vec::new());
    let extensions = InstanceExtensions::new(Vec::new(), Vec::new(), &layers);
    let instance = Instance::new(layers, extensions, &Vec::new(), 0, Vec::new());
    assert!(!instance.debug_messenger_installed());
}

#[test]
fn device_extension_push_and_reject() {
    let mut extensions = DeviceExtensions::new(names(&["VK_KHR_swapchain"]));
    assert!(extensions.try_push_khr_swapchain());
    assert!(!extensions.try_push_khr_portability_subset());
    assert!(!extensions.khr_portability_subset());
    assert_eq!(extensions.enabled(), &names(&["VK_KHR_swapchain"]));
}

#[test]
fn device_portability_subset_push() {
    let mut extensions = DeviceExtensions::new(names(&["VK_KHR_portability_subset"]));
    extensions.push_khr_portability_subset();
    assert!(extensions.khr_portability_subset());
    assert_eq!(extensions.enabled(), &names(&["VK_KHR_portability_subset"]));
}
