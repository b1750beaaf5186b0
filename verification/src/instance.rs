use std::sync::Arc;
use vstd::prelude::*;

use crate::adapter::{local_heap_sum, optimal_adapter, AdapterInfo, DeviceType};
use crate::adapter::{device_local_heap_size, lemma_local_heap_sum_nonneg};
use crate::ownership::arc_clone;
use crate::names::{
    contains_name, contains_name_spec, ext_debug_utils_name, ext_debug_utils_name_string,
    ext_validation_features_name, ext_validation_features_name_string,
    khr_get_surface_capabilities2_name, khr_get_surface_capabilities2_name_string,
    khr_surface_name, khr_surface_name_string, khronos_validation_name,
    khronos_validation_name_string, lemma_names_view_push, names_view,
};

verus! {

/// The instance-layer registry: what the loader reports as available, and
/// what the caller has opted into.
///
/// Enabling is monotonic during construction, and `try_push_*` re-evaluates
/// the supported-list on every call; pushing a name that is already enabled
/// therefore appends it a second time.
pub struct InstanceLayers {
    supported: Vec<String>,
    enabled: Vec<String>,
    khronos_validation: bool,
}

impl InstanceLayers {
    /// The layer names the loader reported as available.
    pub closed spec fn supported_names(self) -> Seq<Seq<char>> {
        names_view(self.supported@)
    }

    /// The layer names the caller has opted into, in the order they were
    /// requested.
    pub closed spec fn enabled_names(self) -> Seq<Seq<char>> {
        names_view(self.enabled@)
    }

    /// Whether the validation layer has been enabled.
    pub closed spec fn khronos_validation_enabled(self) -> bool {
        self.khronos_validation
    }

    /// A layer can be enabled only if the loader reported it as supported.
    pub open spec fn wf(self) -> bool {
        forall|i: int|
            0 <= i < self.enabled_names().len() ==> contains_name_spec(
                self.supported_names(),
                self.enabled_names()[i],
            )
    }

    /// Builds the registry over the loader-reported layer list, with nothing
    /// enabled yet.
    pub fn new(supported: Vec<String>) -> (r: Self)
        ensures
            r.supported_names() == names_view(supported@),
            r.enabled_names() == Seq::<Seq<char>>::empty(),
            !r.khronos_validation_enabled(),
            r.wf(),
    {
        let r = Self { supported, enabled: Vec::new(), khronos_validation: false };
        assert(r.enabled_names() =~= Seq::<Seq<char>>::empty());
        r
    }

    /// Enables `name` exactly when the loader supports it; an unsupported
    /// name changes nothing.
    fn try_push(&mut self, name: String) -> (r: bool)
        ensures
            r == contains_name_spec(old(self).supported_names(), name@),
            final(self).supported_names() == old(self).supported_names(),
            final(self).khronos_validation_enabled() == old(self).khronos_validation_enabled(),
            r ==> final(self).enabled_names() == old(self).enabled_names().push(name@),
            !r ==> *final(self) == *old(self),
            old(self).wf() ==> final(self).wf(),
    {
        if contains_name(&self.supported, &name) {
            proof {
                lemma_names_view_push(self.enabled@, name);
            }
            self.enabled.push(name);
            true
        } else {
            false
        }
    }

    /// Opts into the validation layer when the loader supports it; on success
    /// the name is appended and the flag set, on absence nothing changes.
    pub fn try_push_khronos_validation(&mut self) -> (r: bool)
        ensures
            r == contains_name_spec(old(self).supported_names(), khronos_validation_name()),
            final(self).supported_names() == old(self).supported_names(),
            r ==> final(self).enabled_names() == old(self).enabled_names().push(
                khronos_validation_name(),
            ),
            !r ==> *final(self) == *old(self),
            final(self).khronos_validation_enabled() == (old(
                self,
            ).khronos_validation_enabled() || r),
            old(self).wf() ==> final(self).wf(),
    {
        if self.try_push(khronos_validation_name_string()) {
            self.khronos_validation = true;
            true
        } else {
            false
        }
    }

    /// Demands the validation layer: the caller has already checked that it
    /// is supported, so this always enables it.
    pub fn push_khronos_validation(&mut self)
        requires
            contains_name_spec(old(self).supported_names(), khronos_validation_name()),
        ensures
            final(self).supported_names() == old(self).supported_names(),
            final(self).enabled_names() == old(self).enabled_names().push(
                khronos_validation_name(),
            ),
            final(self).khronos_validation_enabled(),
            old(self).wf() ==> final(self).wf(),
    {
        let _ = self.try_push_khronos_validation();
    }

    pub fn khronos_validation(&self) -> (r: bool)
        ensures
            r == self.khronos_validation_enabled(),
    {
        self.khronos_validation
    }

    /// The opted-into layer names, as handed to instance creation.
    pub fn enabled(&self) -> (r: &Vec<String>)
        ensures
            names_view(r@) == self.enabled_names(),
    {
        &self.enabled
    }
}

/// The instance-extension registry. Beside the loader's own list it carries
/// the extensions visible only through the validation layer, and the
/// platform-required presentation extensions, which are force-enabled
/// without the supported-check because the platform layer supplies them.
///
/// As with layers, enabling is monotonic and `try_push_*` re-evaluates
/// support on every call, so a repeated push appends a duplicate.
pub struct InstanceExtensions {
    supported: Vec<String>,
    supported_khronos_validation: Vec<String>,
    enabled: Vec<String>,
    required: Vec<String>,
    ext_debug_utils: bool,
    ext_validation_features: bool,
    khr_get_surface_capabilities2: bool,
    khr_surface: bool,
}

impl InstanceExtensions {
    pub closed spec fn supported_names(self) -> Seq<Seq<char>> {
        names_view(self.supported@)
    }

    /// Extensions visible only through the enabled validation layer.
    pub closed spec fn layer_scoped_names(self) -> Seq<Seq<char>> {
        names_view(self.supported_khronos_validation@)
    }

    pub closed spec fn enabled_names(self) -> Seq<Seq<char>> {
        names_view(self.enabled@)
    }

    /// Platform-required names that were force-enabled without the check.
    pub closed spec fn required_names(self) -> Seq<Seq<char>> {
        names_view(self.required@)
    }

    pub closed spec fn ext_debug_utils_enabled(self) -> bool {
        self.ext_debug_utils
    }

    pub closed spec fn ext_validation_features_enabled(self) -> bool {
        self.ext_validation_features
    }

    pub closed spec fn khr_get_surface_capabilities2_enabled(self) -> bool {
        self.khr_get_surface_capabilities2
    }

    pub closed spec fn khr_surface_enabled(self) -> bool {
        self.khr_surface
    }

    /// A name may be enabled only out of the supported lists, or because the
    /// platform required it.
    pub open spec fn wf(self) -> bool {
        forall|i: int|
            0 <= i < self.enabled_names().len() ==> (contains_name_spec(
                self.supported_names(),
                self.enabled_names()[i],
            ) || contains_name_spec(self.layer_scoped_names(), self.enabled_names()[i])
                || contains_name_spec(self.required_names(), self.enabled_names()[i]))
    }

    /// Whether either driver-reported list carries `name`.
    pub open spec fn supports(self, name: Seq<char>) -> bool {
        contains_name_spec(self.supported_names(), name) || contains_name_spec(
            self.layer_scoped_names(),
            name,
        )
    }

    /// Builds the registry over the loader-reported list; the layer-scoped
    /// list is kept only when the validation layer was actually enabled.
    pub fn new(supported: Vec<String>, layer_scoped: Vec<String>, layers: &InstanceLayers) -> (r:
        Self)
        ensures
            r.supported_names() == names_view(supported@),
            r.layer_scoped_names() == (if layers.khronos_validation_enabled() {
                names_view(layer_scoped@)
            } else {
                Seq::<Seq<char>>::empty()
            }),
            r.enabled_names() == Seq::<Seq<char>>::empty(),
            r.required_names() == Seq::<Seq<char>>::empty(),
            !r.ext_debug_utils_enabled(),
            !r.ext_validation_features_enabled(),
            !r.khr_get_surface_capabilities2_enabled(),
            !r.khr_surface_enabled(),
            r.wf(),
    {
        let supported_khronos_validation = if layers.khronos_validation() {
            layer_scoped
        } else {
            Vec::new()
        };
        let r = Self {
            supported,
            supported_khronos_validation,
            enabled: Vec::new(),
            required: Vec::new(),
            ext_debug_utils: false,
            ext_validation_features: false,
            khr_get_surface_capabilities2: false,
            khr_surface: false,
        };
        assert(r.enabled_names() =~= Seq::<Seq<char>>::empty());
        assert(r.required_names() =~= Seq::<Seq<char>>::empty());
        assert(!layers.khronos_validation_enabled() ==> r.layer_scoped_names() =~= Seq::<
            Seq<char>,
        >::empty());
        r
    }

    /// Enables `name` exactly when one of the two supported lists carries it.
    fn try_push(&mut self, name: String) -> (r: bool)
        ensures
            r == old(self).supports(name@),
            final(self).supported_names() == old(self).supported_names(),
            final(self).layer_scoped_names() == old(self).layer_scoped_names(),
            final(self).required_names() == old(self).required_names(),
            final(self).ext_debug_utils_enabled() == old(self).ext_debug_utils_enabled(),
            final(self).ext_validation_features_enabled() == old(
                self,
            ).ext_validation_features_enabled(),
            final(self).khr_get_surface_capabilities2_enabled() == old(
                self,
            ).khr_get_surface_capabilities2_enabled(),
            final(self).khr_surface_enabled() == old(self).khr_surface_enabled(),
            r ==> final(self).enabled_names() == old(self).enabled_names().push(name@),
            !r ==> *final(self) == *old(self),
            old(self).wf() ==> final(self).wf(),
    {
        if contains_name(&self.supported, &name) || contains_name(
            &self.supported_khronos_validation,
            &name,
        ) {
            proof {
                lemma_names_view_push(self.enabled@, name);
            }
            let ghost before = *self;
            self.enabled.push(name);
            proof {
                assert forall|i: int|
                    0 <= i < self.enabled_names().len() && before.wf() implies (contains_name_spec(
                    self.supported_names(),
                    self.enabled_names()[i],
                ) || contains_name_spec(self.layer_scoped_names(), self.enabled_names()[i])
                    || contains_name_spec(self.required_names(), self.enabled_names()[i])) by {
                    if i < before.enabled_names().len() {
                        assert(self.enabled_names()[i] == before.enabled_names()[i]);
                    } else {
                        assert(self.enabled_names()[i] == name@);
                    }
                }
            }
            true
        } else {
            false
        }
    }

    /// Opts into the diagnostics extension when it is supported.
    pub fn try_push_ext_debug_utils(&mut self) -> (r: bool)
        ensures
            r == old(self).supports(ext_debug_utils_name()),
            final(self).supported_names() == old(self).supported_names(),
            final(self).layer_scoped_names() == old(self).layer_scoped_names(),
            r ==> final(self).enabled_names() == old(self).enabled_names().push(
                ext_debug_utils_name(),
            ),
            !r ==> *final(self) == *old(self),
            final(self).ext_debug_utils_enabled() == (old(self).ext_debug_utils_enabled() || r),
            final(self).ext_validation_features_enabled() == old(
                self,
            ).ext_validation_features_enabled(),
            final(self).khr_get_surface_capabilities2_enabled() == old(
                self,
            ).khr_get_surface_capabilities2_enabled(),
            final(self).khr_surface_enabled() == old(self).khr_surface_enabled(),
            old(self).wf() ==> final(self).wf(),
    {
        if self.try_push(ext_debug_utils_name_string()) {
            self.ext_debug_utils = true;
            true
        } else {
            false
        }
    }

    /// Demands the diagnostics extension; the caller has checked support.
    pub fn push_ext_debug_utils(&mut self)
        requires
            old(self).supports(ext_debug_utils_name()),
        ensures
            final(self).supported_names() == old(self).supported_names(),
            final(self).layer_scoped_names() == old(self).layer_scoped_names(),
            final(self).enabled_names() == old(self).enabled_names().push(ext_debug_utils_name()),
            final(self).ext_debug_utils_enabled(),
            final(self).khr_surface_enabled() == old(self).khr_surface_enabled(),
            old(self).wf() ==> final(self).wf(),
    {
        let _ = self.try_push_ext_debug_utils();
    }

    pub fn ext_debug_utils(&self) -> (r: bool)
        ensures
            r == self.ext_debug_utils_enabled(),
    {
        self.ext_debug_utils
    }

    /// Opts into the validation-features extension when it is supported.
    pub fn try_push_ext_validation_features(&mut self) -> (r: bool)
        ensures
            r == old(self).supports(ext_validation_features_name()),
            final(self).supported_names() == old(self).supported_names(),
            final(self).layer_scoped_names() == old(self).layer_scoped_names(),
            r ==> final(self).enabled_names() == old(self).enabled_names().push(
                ext_validation_features_name(),
            ),
            !r ==> *final(self) == *old(self),
            final(self).ext_validation_features_enabled() == (old(
                self,
            ).ext_validation_features_enabled() || r),
            final(self).ext_debug_utils_enabled() == old(self).ext_debug_utils_enabled(),
            final(self).khr_get_surface_capabilities2_enabled() == old(
                self,
            ).khr_get_surface_capabilities2_enabled(),
            final(self).khr_surface_enabled() == old(self).khr_surface_enabled(),
            old(self).wf() ==> final(self).wf(),
    {
        if self.try_push(ext_validation_features_name_string()) {
            self.ext_validation_features = true;
            true
        } else {
            false
        }
    }

    /// Demands the validation-features extension; the caller has checked
    /// support.
    pub fn push_ext_validation_features(&mut self)
        requires
            old(self).supports(ext_validation_features_name()),
        ensures
            final(self).supported_names() == old(self).supported_names(),
            final(self).layer_scoped_names() == old(self).layer_scoped_names(),
            final(self).enabled_names() == old(self).enabled_names().push(
                ext_validation_features_name(),
            ),
            final(self).ext_validation_features_enabled(),
            old(self).wf() ==> final(self).wf(),
    {
        let _ = self.try_push_ext_validation_features();
    }

    pub fn ext_validation_features(&self) -> (r: bool)
        ensures
            r == self.ext_validation_features_enabled(),
    {
        self.ext_validation_features
    }

    /// Opts into the extended surface-capability query when supported.
    pub fn try_push_get_surface_capabilities2(&mut self) -> (r: bool)
        ensures
            r == old(self).supports(khr_get_surface_capabilities2_name()),
            final(self).supported_names() == old(self).supported_names(),
            final(self).layer_scoped_names() == old(self).layer_scoped_names(),
            r ==> final(self).enabled_names() == old(self).enabled_names().push(
                khr_get_surface_capabilities2_name(),
            ),
            !r ==> *final(self) == *old(self),
            final(self).khr_get_surface_capabilities2_enabled() == (old(
                self,
            ).khr_get_surface_capabilities2_enabled() || r),
            final(self).ext_debug_utils_enabled() == old(self).ext_debug_utils_enabled(),
            final(self).ext_validation_features_enabled() == old(
                self,
            ).ext_validation_features_enabled(),
            final(self).khr_surface_enabled() == old(self).khr_surface_enabled(),
            old(self).wf() ==> final(self).wf(),
    {
        if self.try_push(khr_get_surface_capabilities2_name_string()) {
            self.khr_get_surface_capabilities2 = true;
            true
        } else {
            false
        }
    }

    /// Demands the extended surface-capability query; support was checked.
    pub fn push_get_surface_capabilities2(&mut self)
        requires
            old(self).supports(khr_get_surface_capabilities2_name()),
        ensures
            final(self).supported_names() == old(self).supported_names(),
            final(self).layer_scoped_names() == old(self).layer_scoped_names(),
            final(self).enabled_names() == old(self).enabled_names().push(
                khr_get_surface_capabilities2_name(),
            ),
            final(self).khr_get_surface_capabilities2_enabled(),
            old(self).wf() ==> final(self).wf(),
    {
        let _ = self.try_push_get_surface_capabilities2();
    }

    pub fn khr_get_surface_capabilities2(&self) -> (r: bool)
        ensures
            r == self.khr_get_surface_capabilities2_enabled(),
    {
        self.khr_get_surface_capabilities2
    }

    /// Opts into the surface extension by the supported-check; beside this,
    /// the required-platform push below sets the flag without a check.
    pub fn try_push_khr_surface(&mut self) -> (r: bool)
        ensures
            r == old(self).supports(khr_surface_name()),
            final(self).supported_names() == old(self).supported_names(),
            final(self).layer_scoped_names() == old(self).layer_scoped_names(),
            r ==> final(self).enabled_names() == old(self).enabled_names().push(
                khr_surface_name(),
            ),
            !r ==> *final(self) == *old(self),
            final(self).khr_surface_enabled() == (old(self).khr_surface_enabled() || r),
            final(self).ext_debug_utils_enabled() == old(self).ext_debug_utils_enabled(),
            final(self).ext_validation_features_enabled() == old(
                self,
            ).ext_validation_features_enabled(),
            final(self).khr_get_surface_capabilities2_enabled() == old(
                self,
            ).khr_get_surface_capabilities2_enabled(),
            old(self).wf() ==> final(self).wf(),
    {
        if self.try_push(khr_surface_name_string()) {
            self.khr_surface = true;
            true
        } else {
            false
        }
    }

    /// Demands the surface extension; the caller has checked support.
    pub fn push_khr_surface(&mut self)
        requires
            old(self).supports(khr_surface_name()),
        ensures
            final(self).supported_names() == old(self).supported_names(),
            final(self).layer_scoped_names() == old(self).layer_scoped_names(),
            final(self).enabled_names() == old(self).enabled_names().push(khr_surface_name()),
            final(self).khr_surface_enabled(),
            old(self).wf() ==> final(self).wf(),
    {
        let _ = self.try_push_khr_surface();
    }

    pub fn khr_surface(&self) -> (r: bool)
        ensures
            r == self.khr_surface_enabled(),
    {
        self.khr_surface
    }

    /// Force-enables the platform's required presentation extensions without
    /// the supported-check: the platform layer supplies them. The surface
    /// flag is set because `VK_KHR_surface` is always among them.
    pub fn push_required_platform_extensions(&mut self, required: &Vec<String>)
        ensures
            final(self).supported_names() == old(self).supported_names(),
            final(self).layer_scoped_names() == old(self).layer_scoped_names(),
            final(self).enabled_names() == old(self).enabled_names() + names_view(required@),
            final(self).required_names() == old(self).required_names() + names_view(required@),
            final(self).khr_surface_enabled(),
            final(self).ext_debug_utils_enabled() == old(self).ext_debug_utils_enabled(),
            final(self).ext_validation_features_enabled() == old(
                self,
            ).ext_validation_features_enabled(),
            final(self).khr_get_surface_capabilities2_enabled() == old(
                self,
            ).khr_get_surface_capabilities2_enabled(),
            old(self).wf() ==> final(self).wf(),
    {
        let ghost old_self = *self;
        for i in 0..required.len()
            invariant
                self.supported@ == old_self.supported@,
                self.supported_khronos_validation@ == old_self.supported_khronos_validation@,
                self.ext_debug_utils == old_self.ext_debug_utils,
                self.ext_validation_features == old_self.ext_validation_features,
                self.khr_get_surface_capabilities2 == old_self.khr_get_surface_capabilities2,
                self.khr_surface == old_self.khr_surface,
                self.enabled@ == old_self.enabled@ + required@.take(i as int),
                self.required@ == old_self.required@ + required@.take(i as int),
        {
            let name = required[i].clone();
            self.enabled.push(name.clone());
            self.required.push(name);
            assert(required@.take(i + 1) =~= required@.take(i as int).push(required@[i as int]));
            assert(self.enabled@ =~= old_self.enabled@ + required@.take(i + 1));
            assert(self.required@ =~= old_self.required@ + required@.take(i + 1));
        }
        self.khr_surface = true;
        proof {
            assert(required@.take(required@.len() as int) =~= required@);
            assert(self.enabled_names() =~= old(self).enabled_names() + names_view(required@));
            assert(self.required_names() =~= old(self).required_names() + names_view(required@));
            assert forall|i: int|
                0 <= i < self.enabled_names().len() && old(self).wf() implies (contains_name_spec(
                self.supported_names(),
                self.enabled_names()[i],
            ) || contains_name_spec(self.layer_scoped_names(), self.enabled_names()[i])
                || contains_name_spec(self.required_names(), self.enabled_names()[i])) by {
                if i < old(self).enabled_names().len() {
                    assert(self.enabled_names()[i] == old(self).enabled_names()[i]);
                    assert(forall|j: int|
                        0 <= j < old(self).required_names().len() ==> self.required_names()[j]
                            == old(self).required_names()[j]);
                } else {
                    let k = i - old(self).enabled_names().len();
                    assert(self.enabled_names()[i] == names_view(required@)[k]);
                    assert(self.required_names()[old(self).required_names().len() + k]
                        == names_view(required@)[k]);
                }
            }
        }
    }

    /// The opted-into extension names, as handed to instance creation.
    pub fn enabled(&self) -> (r: &Vec<String>)
        ensures
            names_view(r@) == self.enabled_names(),
    {
        &self.enabled
    }
}

/// Everything the instance owns once construction is over; immutable from
/// then on and shared by every dependent object.
pub struct InstanceShared {
    pub layers: InstanceLayers,
    pub extensions: InstanceExtensions,
    pub adapters: Vec<AdapterInfo>,
    pub api_version: u32,
    pub debug_messenger_installed: bool,
    pub validation_features_chained: bool,
}

/// The shared-ownership instance handle: surfaces and devices hold one, so
/// the instance state outlives them all however the handles are dropped.
pub struct Instance {
    shared: Arc<InstanceShared>,
}

impl View for Instance {
    type V = InstanceShared;

    closed spec fn view(&self) -> InstanceShared {
        *self.shared
    }
}

impl Clone for Instance {
    /// Another handle to the same shared instance state.
    fn clone(&self) -> (r: Self)
        ensures
            r@ == self@,
    {
        Instance { shared: arc_clone(&self.shared) }
    }
}

impl Instance {
    /// The registries obey their invariants and every adapter's device-local
    /// heap sizes have a machine-representable sum.
    pub open spec fn wf(self) -> bool {
        &&& self@.layers.wf()
        &&& self@.extensions.wf()
        &&& forall|i: int|
            0 <= i < self@.adapters@.len() ==> local_heap_sum(self@.adapters@[i].heaps@)
                <= u64::MAX
    }

    /// Assembles the instance from the negotiated registries and the
    /// enumerated adapters. The platform's required presentation extensions
    /// are force-enabled here, after the caller's opt-ins; the diagnostics
    /// messenger is installed exactly when the diagnostics extension was
    /// enabled, and the validation-features descriptor is chained exactly
    /// when its extension was enabled.
    pub fn new(
        layers: InstanceLayers,
        extensions: InstanceExtensions,
        required_extensions: &Vec<String>,
        api_version: u32,
        adapters: Vec<AdapterInfo>,
    ) -> (r: Instance)
        requires
            layers.wf(),
            extensions.wf(),
            forall|i: int|
                0 <= i < adapters@.len() ==> local_heap_sum(adapters@[i].heaps@) <= u64::MAX,
        ensures
            r@.layers == layers,
            r@.extensions.supported_names() == extensions.supported_names(),
            r@.extensions.layer_scoped_names() == extensions.layer_scoped_names(),
            r@.extensions.enabled_names() == extensions.enabled_names() + names_view(
                required_extensions@,
            ),
            r@.extensions.required_names() == extensions.required_names() + names_view(
                required_extensions@,
            ),
            r@.extensions.khr_surface_enabled(),
            r@.extensions.ext_debug_utils_enabled() == extensions.ext_debug_utils_enabled(),
            r@.extensions.ext_validation_features_enabled()
                == extensions.ext_validation_features_enabled(),
            r@.extensions.khr_get_surface_capabilities2_enabled()
                == extensions.khr_get_surface_capabilities2_enabled(),
            r@.adapters == adapters,
            r@.api_version == api_version,
            r@.debug_messenger_installed == extensions.ext_debug_utils_enabled(),
            r@.validation_features_chained == extensions.ext_validation_features_enabled(),
            r.wf(),
    {
        let mut extensions = extensions;
        extensions.push_required_platform_extensions(required_extensions);
        let debug_messenger_installed = extensions.ext_debug_utils();
        let validation_features_chained = extensions.ext_validation_features();
        Instance {
            shared: Arc::new(
                InstanceShared {
                    layers,
                    extensions,
                    adapters,
                    api_version,
                    debug_messenger_installed,
                    validation_features_chained,
                },
            ),
        }
    }

    /// The selection policy over the enumerated adapters: among discrete
    /// adapters the greatest summed device-local heap size wins, first seen
    /// on a tie, and with no qualifying discrete adapter the first adapter
    /// is returned.
    pub fn find_optimal_physical_device(&self) -> (r: usize)
        requires
            self.wf(),
            self@.adapters@.len() > 0,
        ensures
            r < self@.adapters@.len(),
            optimal_adapter(self@.adapters@, r as int),
    {
        let adapters = &self.shared.adapters;
        let mut heap_size: u64 = 0;
        let mut best: usize = 0;
        for i in 0..adapters.len()
            invariant
                adapters == self@.adapters,
                self.wf(),
                heap_size == 0 ==> best == 0 && forall|j: int|
                    0 <= j < i ==> crate::adapter::discrete_score(adapters@[j]) <= 0,
                heap_size > 0 ==> {
                    &&& best < i
                    &&& adapters@[best as int].device_type == DeviceType::DiscreteGpu
                    &&& heap_size == crate::adapter::discrete_score(adapters@[best as int])
                    &&& forall|j: int|
                        0 <= j < i ==> crate::adapter::discrete_score(adapters@[j]) <= heap_size
                    &&& forall|j: int|
                        0 <= j < best ==> crate::adapter::discrete_score(adapters@[j]) < heap_size
                },
        {
            let type_is_discrete = match adapters[i].device_type {
                DeviceType::DiscreteGpu => true,
                _ => false,
            };
            if type_is_discrete {
                let current_heap_size = device_local_heap_size(&adapters[i]);
                if current_heap_size > heap_size {
                    heap_size = current_heap_size;
                    best = i;
                }
            }
            proof {
                lemma_local_heap_sum_nonneg(adapters@[i as int].heaps@);
            }
        }
        best
    }

    pub fn layers(&self) -> (r: &InstanceLayers)
        ensures
            *r == self@.layers,
    {
        &self.shared.layers
    }

    pub fn extensions(&self) -> (r: &InstanceExtensions)
        ensures
            *r == self@.extensions,
    {
        &self.shared.extensions
    }

    pub fn adapters(&self) -> (r: &Vec<AdapterInfo>)
        ensures
            *r == self@.adapters,
    {
        &self.shared.adapters
    }

    /// The minimum interface version the caller asked the loader for.
    pub fn api_version(&self) -> (r: u32)
        ensures
            r == self@.api_version,
    {
        self.shared.api_version
    }

    /// Whether a diagnostics messenger forwarding driver messages to the log
    /// was installed at construction.
    pub fn debug_messenger_installed(&self) -> (r: bool)
        ensures
            r == self@.debug_messenger_installed,
    {
        self.shared.debug_messenger_installed
    }

    /// Whether the validation-features descriptor was chained into creation.
    pub fn validation_features_chained(&self) -> (r: bool)
        ensures
            r == self@.validation_features_chained,
    {
        self.shared.validation_features_chained
    }
}

} // verus!
