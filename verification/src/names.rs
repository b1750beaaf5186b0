use vstd::prelude::*;

verus! {

/// A list of names contains `name` when some entry spells it exactly.
pub open spec fn contains_name_spec(names: Seq<Seq<char>>, name: Seq<char>) -> bool {
    exists|i: int| 0 <= i < names.len() && names[i] == name
}

/// The character sequences of a list of owned names.
pub open spec fn names_view(names: Seq<String>) -> Seq<Seq<char>> {
    names.map_values(|s: String| s@)
}

/// Membership test behind every `try_push_*`: scans the driver-reported list
/// for an exact match of the requested name.
pub fn contains_name(names: &Vec<String>, name: &String) -> (r: bool)
    ensures
        r == contains_name_spec(names_view(names@), name@),
{
    let ghost views = names_view(names@);
    for i in 0..names.len()
        invariant
            views == names_view(names@),
            forall|j: int| 0 <= j < i ==> views[j] != name@,
    {
        assert(views[i as int] == names@[i as int]@);
        if names[i].eq(name) {
            return true;
        }
    }
    false
}

/// Appending one owned name appends its character sequence to the view.
pub proof fn lemma_names_view_push(names: Seq<String>, s: String)
    ensures
        names_view(names.push(s)) == names_view(names).push(s@),
{
    assert(names_view(names.push(s)) =~= names_view(names).push(s@));
}

/// The name of the validation layer.
pub open spec fn khronos_validation_name() -> Seq<char> {
    "VK_LAYER_KHRONOS_validation"@
}

pub fn khronos_validation_name_string() -> (r: String)
    ensures
        r@ == khronos_validation_name(),
{
    "VK_LAYER_KHRONOS_validation".to_owned()
}

/// The name of the diagnostics (debug-utils) instance extension.
pub open spec fn ext_debug_utils_name() -> Seq<char> {
    "VK_EXT_debug_utils"@
}

pub fn ext_debug_utils_name_string() -> (r: String)
    ensures
        r@ == ext_debug_utils_name(),
{
    "VK_EXT_debug_utils".to_owned()
}

/// The name of the validation-features instance extension.
pub open spec fn ext_validation_features_name() -> Seq<char> {
    "VK_EXT_validation_features"@
}

pub fn ext_validation_features_name_string() -> (r: String)
    ensures
        r@ == ext_validation_features_name(),
{
    "VK_EXT_validation_features".to_owned()
}

/// The name of the extended surface-capability query extension.
pub open spec fn khr_get_surface_capabilities2_name() -> Seq<char> {
    "VK_KHR_get_surface_capabilities2"@
}

pub fn khr_get_surface_capabilities2_name_string() -> (r: String)
    ensures
        r@ == khr_get_surface_capabilities2_name(),
{
    "VK_KHR_get_surface_capabilities2".to_owned()
}

/// The name of the surface instance extension.
pub open spec fn khr_surface_name() -> Seq<char> {
    "VK_KHR_surface"@
}

pub fn khr_surface_name_string() -> (r: String)
    ensures
        r@ == khr_surface_name(),
{
    "VK_KHR_surface".to_owned()
}

/// The name of the portability-subset device extension.
pub open spec fn khr_portability_subset_name() -> Seq<char> {
    "VK_KHR_portability_subset"@
}

pub fn khr_portability_subset_name_string() -> (r: String)
    ensures
        r@ == khr_portability_subset_name(),
{
    "VK_KHR_portability_subset".to_owned()
}

/// The name of the swapchain device extension.
pub open spec fn khr_swapchain_name() -> Seq<char> {
    "VK_KHR_swapchain"@
}

pub fn khr_swapchain_name_string() -> (r: String)
    ensures
        r@ == khr_swapchain_name(),
{
    "VK_KHR_swapchain".to_owned()
}

} // verus!
