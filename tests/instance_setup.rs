use vision::{supported_layers, InstanceConfig, ValidationInfo};

fn names(list: &[&str]) -> Vec<String> {
    list.iter().map(|s| s.to_string()).collect()
}

fn validation(enabled: bool, layers: &[&str]) -> ValidationInfo {
    ValidationInfo { is_enabled: enabled, required_validation_layers: names(layers) }
}

#[test]
fn layers_supported_when_all_listed() {
    let v = validation(true, &["VK_LAYER_KHRONOS_validation"]);
    assert!(v.check_validation_layer_support(&names(&["VK_LAYER_a", "VK_LAYER_KHRONOS_validation"])));
    assert!(!v.check_validation_layer_support(&names(&["VK_LAYER_a"])));
    assert!(!v.check_validation_layer_support(&names(&[])));
}

#[test]
fn disabled_validation_supports_nothing() {
    let v = validation(false, &["VK_LAYER_KHRONOS_validation"]);
    assert!(!v.check_validation_layer_support(&names(&["VK_LAYER_KHRONOS_validation"])));
    assert!(!v.wants_debug_messenger());
}

#[test]
fn enabled_validation_adds_debug_extension_and_layers() {
    let v = validation(true, &["VK_LAYER_KHRONOS_validation"]);
    let c = InstanceConfig::new(
        &v,
        names(&["VK_KHR_surface", "VK_KHR_xlib_surface"]),
        "VK_EXT_debug_utils".to_string(),
        &names(&["VK_LAYER_KHRONOS_validation"]),
    );
    assert_eq!(c.extension_names, names(&["VK_KHR_surface", "VK_KHR_xlib_surface", "VK_EXT_debug_utils"]));
    assert_eq!(c.layer_names, names(&["VK_LAYER_KHRONOS_validation"]));
    assert!(c.debug_messenger);
}

#[test]
fn unsupported_layers_are_dropped_silently() {
    let v = validation(true, &["VK_LAYER_KHRONOS_validation"]);
    let c = InstanceConfig::new(&v, names(&["VK_KHR_surface"]), "VK_EXT_debug_utils".to_string(), &names(&["VK_LAYER_other"]));
    assert!(c.layer_names.is_empty());
    assert_eq!(c.extension_names, names(&["VK_KHR_surface", "VK_EXT_debug_utils"]));
    assert!(c.debug_messenger);
}

#[test]
fn no_layers_requested_means_no_debug_messenger() {
    let v = validation(true, &[]);
    let c = InstanceConfig::new(&v, names(&["VK_KHR_surface"]), "VK_EXT_debug_utils".to_string(), &names(&["VK_LAYER_a"]));
    assert_eq!(c.extension_names, names(&["VK_KHR_surface"]));
    assert!(c.layer_names.is_empty());
    assert!(!c.debug_messenger);
}

#[test]
fn versions_are_packed_for_the_driver() {
    let c = InstanceConfig::new(&validation(false, &[]), vec![], "VK_EXT_debug_utils".to_string(), &vec![]);
    assert_eq!(c.application_version, 0x1000);
    assert_eq!(c.engine_version, 0x1000);
    assert_eq!(c.api_version, (1 << 22) | (1 << 12));
}

#[test]
fn each_unsupported_layer_is_dropped_alone() {
    let v = validation(true, &["VK_LAYER_a", "VK_LAYER_missing", "VK_LAYER_b"]);
    let c = InstanceConfig::new(
        &v,
        names(&["VK_KHR_surface"]),
        "VK_EXT_debug_utils".to_string(),
        &names(&["VK_LAYER_b", "VK_LAYER_a"]),
    );
    assert_eq!(c.layer_names, names(&["VK_LAYER_a", "VK_LAYER_b"]));
    assert!(c.debug_messenger);
}

#[test]
fn disabled_validation_enables_no_layer() {
    let v = validation(false, &["VK_LAYER_a"]);
    let c = InstanceConfig::new(&v, vec![], "VK_EXT_debug_utils".to_string(), &names(&["VK_LAYER_a"]));
    assert!(c.layer_names.is_empty());
    assert!(c.extension_names.is_empty());
}

#[test]
fn supported_layers_keep_requested_order() {
    assert_eq!(
        supported_layers(&names(&["x", "y", "z", "y"]), &names(&["z", "y"])),
        names(&["y", "z", "y"])
    );
    assert!(supported_layers(&names(&["x"]), &names(&[])).is_empty());
}
