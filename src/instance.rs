use vstd::prelude::*;
use crate::physical_device::{all_names_in, all_names_listed, name_in, name_listed};

verus! {

/// Whether driver diagnostics are wanted, and which validation layers to ask
/// for, in order.
pub struct ValidationInfo {
    pub is_enabled: bool,
    pub required_validation_layers: Vec<String>,
}

/// What the instance is created with.
pub struct InstanceConfig {
    pub application_version: u32,
    pub engine_version: u32,
    pub api_version: u32,
    /// Instance extensions to enable.
    pub extension_names: Vec<String>,
    /// Validation layers to enable.
    pub layer_names: Vec<String>,
    /// Whether a debug messenger is registered once the instance exists.
    pub debug_messenger: bool,
}

/// A debug messenger, and the extension it needs, are wanted when
/// diagnostics are enabled and at least one layer is asked for.
pub open spec fn spec_wants_debug(info: ValidationInfo) -> bool {
    info.is_enabled && info.required_validation_layers@.len() > 0
}

/// The requested layers are usable: diagnostics are enabled, the driver
/// reports some layers, and every requested one is among them.
pub open spec fn spec_layers_supported(info: ValidationInfo, available: Seq<String>) -> bool {
    &&& info.is_enabled
    &&& available.len() > 0
    &&& all_names_listed(available, info.required_validation_layers@)
}

/// A version number packed as the driver expects it.
pub open spec fn packed_version(major: u32, minor: u32, patch: u32) -> u32 {
    (major << 22) | (minor << 12) | patch
}

/// Relies on `ash::vk::make_version`, which packs a version as
/// `(major << 22) | (minor << 12) | patch`.
#[verifier::external_body]
fn make_version(major: u32, minor: u32, patch: u32) -> (r: u32)
    ensures
        r == packed_version(major, minor, patch),
{
    ash::vk::make_version(major, minor, patch)
}

impl ValidationInfo {
    /// Whether the requested validation layers can be enabled, given the
    /// layers the driver reports. Disabled diagnostics, or a driver that
    /// reports no layer at all, give `false`.
    pub fn check_validation_layer_support(&self, available_layers: &Vec<String>) -> (r: bool)
        ensures
            r == spec_layers_supported(*self, available_layers@),
    {
        if !self.is_enabled {
            return false;
        }
        if available_layers.len() == 0 {
            return false;
        }
        all_names_in(available_layers, &self.required_validation_layers)
    }

    /// Whether a debug messenger is registered.
    pub fn wants_debug_messenger(&self) -> (r: bool)
        ensures
            r == spec_wants_debug(*self),
    {
        self.is_enabled && self.required_validation_layers.len() > 0
    }
}

/// The requested layers that the driver reports, in the order requested.
pub open spec fn spec_supported_layers(requested: Seq<String>, available: Seq<String>) -> Seq<String> {
    requested.filter(|s: String| name_listed(available, s@))
}

/// The requested layers that occur in `available`, in the order requested;
/// the others are dropped.
pub fn supported_layers(requested: &Vec<String>, available: &Vec<String>) -> (r: Vec<String>)
    ensures
        r@ == spec_supported_layers(requested@, available@),
{
    let mut out: Vec<String> = Vec::new();
    let mut i: usize = 0;
    while i < requested.len()
        invariant
            i <= requested@.len(),
            out@ == spec_supported_layers(requested@.subrange(0, i as int), available@),
        decreases requested@.len() - i,
    {
        let ghost prefix = requested@.subrange(0, i as int);
        let ghost next = requested@.subrange(0, i + 1);
        proof {
            assert(next.drop_last() =~= prefix);
            assert(next.last() == requested@[i as int]);
            reveal(Seq::filter);
        }
        if name_in(available, &requested[i]) {
            out.push(requested[i].clone());
        }
        i = i + 1;
    }
    proof {
        assert(requested@.subrange(0, requested@.len() as int) =~= requested@);
    }
    out
}

impl InstanceConfig {
    /// The instance for version 0.1.0 of the application and engine on API
    /// 1.1: the surface's extensions, then the debug extension when a debug
    /// messenger is wanted; when diagnostics are enabled, each requested layer
    /// that the driver reports, in the order requested, the others dropped.
    pub fn new(
        validation_info: &ValidationInfo,
        surface_extensions: Vec<String>,
        debug_utils_extension: String,
        available_layers: &Vec<String>,
    ) -> (r: Self)
        ensures
            r.application_version == packed_version(0, 1, 0),
            r.engine_version == packed_version(0, 1, 0),
            r.api_version == packed_version(1, 1, 0),
            r.application_version == 0x1000,
            r.api_version == 0x40_1000,
            r.extension_names@ == if spec_wants_debug(*validation_info) {
                surface_extensions@.push(debug_utils_extension)
            } else {
                surface_extensions@
            },
            r.layer_names@ == if validation_info.is_enabled {
                spec_supported_layers(validation_info.required_validation_layers@, available_layers@)
            } else {
                Seq::<String>::empty()
            },
            r.debug_messenger == spec_wants_debug(*validation_info),
    {
        let application_version = make_version(0, 1, 0);
        let engine_version = make_version(0, 1, 0);
        let api_version = make_version(1, 1, 0);
        assert(packed_version(0, 1, 0) == 0x1000) by (bit_vector);
        assert(packed_version(1, 1, 0) == 0x40_1000) by (bit_vector);
        let debug_messenger = validation_info.wants_debug_messenger();
        let mut extension_names = surface_extensions;
        if debug_messenger {
            extension_names.push(debug_utils_extension);
        }
        let layer_names = if validation_info.is_enabled {
            supported_layers(&validation_info.required_validation_layers, available_layers)
        } else {
            Vec::new()
        };
        InstanceConfig {
            application_version,
            engine_version,
            api_version,
            extension_names,
            layer_names,
            debug_messenger,
        }
    }
}

} // verus!
