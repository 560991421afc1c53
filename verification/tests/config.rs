use surface_lifecycle::config::{
    build_instance_config, DEBUG_UTILS_EXTENSION_NAME, VALIDATION_LAYER_NAME,
};
use surface_lifecycle::version::{make_version, API_VERSION};

#[test]
fn validation_appends_debug_extension_and_layer() {
    let platform = vec![String::from("VK_SURFACE_EXT_A")];
    let c = build_instance_config(platform, true, false);
    assert_eq!(c.extensions, vec![
        String::from("VK_SURFACE_EXT_A"),
        String::from(DEBUG_UTILS_EXTENSION_NAME),
    ]);
    assert_eq!(c.layers, vec![String::from(VALIDATION_LAYER_NAME)]);
    assert_eq!(c.extensions[1], "VK_EXT_debug_utils");
    assert_eq!(c.layers[0], "VK_LAYER_KHRONOS_validation");
}

#[test]
fn no_validation_keeps_platform_extensions_only() {
    let platform = vec![String::from("VK_SURFACE_EXT_A")];
    let c = build_instance_config(platform, false, false);
    assert_eq!(c.extensions, vec![String::from("VK_SURFACE_EXT_A")]);
    assert!(c.layers.is_empty());
}

#[test]
fn several_platform_extensions_keep_their_order() {
    let platform = vec![
        String::from("VK_KHR_surface"),
        String::from("VK_KHR_xlib_surface"),
    ];
    let c = build_instance_config(platform, true, false);
    assert_eq!(c.extensions, vec![
        String::from("VK_KHR_surface"),
        String::from("VK_KHR_xlib_surface"),
        String::from("VK_EXT_debug_utils"),
    ]);
}

#[test]
fn portability_flag_is_passed_through() {
    assert!(build_instance_config(Vec::new(), false, true).portability);
    assert!(!build_instance_config(Vec::new(), false, false).portability);
}

#[test]
fn api_version_targets_1_0_0() {
    let c = build_instance_config(Vec::new(), true, false);
    assert_eq!(c.api_version, API_VERSION);
    assert_eq!(c.api_version, make_version(1, 0, 0));
    assert_eq!(c.api_version, 1 << 22);
}
