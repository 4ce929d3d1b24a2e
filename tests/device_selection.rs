use vision::{
    check_extension_support, find_queue_families, is_device_suitable, queue_create_families,
    DeviceCandidate, PhysicalDevice, ProbeError, QueueFamilyIndices, QueueFamilySupport,
};

fn fam(graphics: bool, present: bool) -> QueueFamilySupport {
    QueueFamilySupport { graphics, present }
}

fn names(list: &[&str]) -> Vec<String> {
    list.iter().map(|s| s.to_string()).collect()
}

#[test]
fn first_family_of_each_kind_wins() {
    let families = vec![fam(false, false), fam(true, false), fam(true, true), fam(false, true)];
    assert_eq!(find_queue_families(&families), (Some(1), Some(2)));
}

#[test]
fn one_family_may_serve_both() {
    let families = vec![fam(true, true), fam(true, true)];
    assert_eq!(find_queue_families(&families), (Some(0), Some(0)));
}

#[test]
fn missing_present_family_is_none() {
    let families = vec![fam(true, false), fam(true, false)];
    assert_eq!(find_queue_families(&families), (Some(0), None));
    assert_eq!(find_queue_families(&vec![]), (None, None));
}

#[test]
fn extension_names_match_exactly() {
    let c = DeviceCandidate {
        queue_families: vec![fam(true, true)],
        extensions: names(&["VK_KHR_swapchain", "VK_KHR_maintenance1"]),
    };
    assert!(check_extension_support(&c, &names(&["VK_KHR_swapchain"])));
    assert!(check_extension_support(&c, &names(&[])));
    assert!(!check_extension_support(&c, &names(&["VK_KHR_swapchai"])));
    assert!(!check_extension_support(&c, &names(&["VK_KHR_swapchain", "VK_EXT_other"])));
}

#[test]
fn suitability_needs_both_families_and_extensions() {
    let required = names(&["VK_KHR_swapchain"]);
    let good = DeviceCandidate { queue_families: vec![fam(true, false), fam(false, true)], extensions: required.clone() };
    let no_present = DeviceCandidate { queue_families: vec![fam(true, false)], extensions: required.clone() };
    let no_ext = DeviceCandidate { queue_families: vec![fam(true, true)], extensions: vec![] };
    assert!(is_device_suitable(&good, &required));
    assert!(!is_device_suitable(&no_present, &required));
    assert!(!is_device_suitable(&no_ext, &required));
}

#[test]
fn first_suitable_device_is_selected() {
    let required = names(&["VK_KHR_swapchain"]);
    let candidates = vec![
        DeviceCandidate { queue_families: vec![fam(true, false)], extensions: required.clone() },
        DeviceCandidate { queue_families: vec![fam(false, true), fam(true, false)], extensions: required.clone() },
        DeviceCandidate { queue_families: vec![fam(true, true)], extensions: required.clone() },
    ];
    let d = PhysicalDevice::optimal_device(&candidates, required.clone()).unwrap();
    assert_eq!(d.device_index(), 1);
    assert_eq!(d.queue_family_indices(), QueueFamilyIndices { graphics_family: 1, present_family: 0 });
    assert_eq!(d.required_extensions(), &required);
    let chosen = &candidates[d.device_index()];
    let idx = d.queue_family_indices();
    assert!(chosen.queue_families[idx.graphics_family as usize].graphics);
    assert!(chosen.queue_families[idx.present_family as usize].present);
    for e in d.required_extensions() {
        assert!(chosen.extensions.contains(e));
    }
}

#[test]
fn no_suitable_device_fails() {
    let required = names(&["VK_KHR_swapchain"]);
    let candidates = vec![
        DeviceCandidate { queue_families: vec![fam(true, true)], extensions: vec![] },
        DeviceCandidate { queue_families: vec![fam(false, true)], extensions: required.clone() },
    ];
    assert!(matches!(
        PhysicalDevice::optimal_device(&candidates, required.clone()),
        Err(ProbeError::NoSuitableDevice)
    ));
    assert!(matches!(
        PhysicalDevice::optimal_device(&vec![], required),
        Err(ProbeError::NoSuitableDevice)
    ));
}

#[test]
fn queue_requests_are_deduplicated() {
    assert_eq!(queue_create_families(QueueFamilyIndices { graphics_family: 3, present_family: 3 }), vec![3]);
    assert_eq!(queue_create_families(QueueFamilyIndices { graphics_family: 0, present_family: 1 }), vec![0, 1]);
}
