//! Selection of the instance creation parameters: the extension and
//! layer names to request from the graphics backend, the portability
//! flag, and the target API version.

use vstd::prelude::*;
use vstd::string::StringExecFns;
use crate::version::API_VERSION;

verus! {

/// Extension that routes backend diagnostics to a registered callback.
pub const DEBUG_UTILS_EXTENSION_NAME: &'static str = "VK_EXT_debug_utils";

/// The validation layer enabled alongside the debug extension.
pub const VALIDATION_LAYER_NAME: &'static str = "VK_LAYER_KHRONOS_validation";

/// The names in a list, each as its character sequence.
pub open spec fn names_of(v: Seq<String>) -> Seq<Seq<char>> {
    v.map_values(|s: String| s@)
}

/// Everything instance creation needs besides the backend itself.
pub struct InstanceConfig {
    /// Extension names to enable: the windowing system's required
    /// surface extensions, plus the debug extension when validation is
    /// on.
    pub extensions: Vec<String>,
    /// Layer names to enable: the validation layer when validation is
    /// on, nothing otherwise.
    pub layers: Vec<String>,
    /// Whether the portability-enumeration creation flag must be set
    /// (required by backends that expose non-conformant
    /// implementations only on explicit opt-in).
    pub portability: bool,
    /// The packed API version declared in the application descriptor.
    pub api_version: u32,
}

/// Assemble the instance creation parameters from the extensions the
/// windowing system requires. With validation enabled, the debug
/// extension is appended to the extension list and the validation
/// layer is requested; without it, the lists carry exactly the
/// platform extensions and no layer.
pub fn build_instance_config(
    platform_extensions: Vec<String>,
    enable_validation: bool,
    portability_required: bool,
) -> (c: InstanceConfig)
    ensures
        c.api_version == API_VERSION,
        c.portability == portability_required,
        enable_validation ==> names_of(c.extensions@) == names_of(platform_extensions@).push(
            DEBUG_UTILS_EXTENSION_NAME@,
        ),
        enable_validation ==> names_of(c.layers@) == seq![VALIDATION_LAYER_NAME@],
        !enable_validation ==> c.extensions@ == platform_extensions@,
        !enable_validation ==> c.layers@.len() == 0,
{
    let ghost platform = platform_extensions@;
    let mut extensions = platform_extensions;
    let mut layers: Vec<String> = Vec::new();
    if enable_validation {
        extensions.push(String::from_str(DEBUG_UTILS_EXTENSION_NAME));
        layers.push(String::from_str(VALIDATION_LAYER_NAME));
        proof {
            assert(names_of(extensions@) =~= names_of(platform).push(
                DEBUG_UTILS_EXTENSION_NAME@,
            ));
            assert(names_of(layers@) =~= seq![VALIDATION_LAYER_NAME@]);
        }
    }
    InstanceConfig { extensions, layers, portability: portability_required, api_version: API_VERSION }
}

} // verus!
