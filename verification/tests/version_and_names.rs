use vk_renderer::names::{device_extensions, has_surface_extension, instance_extensions, instance_layers};
use vk_renderer::version::{decode_version, requested_api_version, version_string};

#[test]
fn requested_version_is_1_2_0() {
    let v = requested_api_version();
    assert_eq!(v, (1u32 << 22) | (2u32 << 12));
    assert_eq!(v, 4202496);
    assert_eq!(decode_version(v), (1, 2, 0));
}

#[test]
fn decode_splits_fields() {
    let v = (1u32 << 22) | (3u32 << 12) | 170;
    assert_eq!(decode_version(v), (1, 3, 170));
    assert_eq!(decode_version(u32::MAX), (1023, 1023, 4095));
    assert_eq!(decode_version(0), (0, 0, 0));
}

#[test]
fn version_roundtrip_examples() {
    for &(a, b, c) in &[(0u32, 0u32, 0u32), (1, 2, 0), (1, 2, 131), (1023, 1023, 4095)] {
        let v = (a << 22) | (b << 12) | c;
        assert_eq!(decode_version(v), (a, b, c));
    }
}

#[test]
fn version_string_some_and_none() {
    let v = (1u32 << 22) | (2u32 << 12) | 162;
    assert_eq!(version_string(Some(v)), "1.2.162");
    assert_eq!(version_string(None), "1.0");
    assert_eq!(version_string(Some(0)), "0.0.0");
    assert_eq!(version_string(Some(u32::MAX)), "1023.1023.4095");
}

#[test]
fn instance_layer_and_extensions() {
    assert_eq!(instance_layers(), vec!["VK_LAYER_KHRONOS_validation".to_string()]);
    let requested = vec!["VK_KHR_surface".to_string(), "VK_KHR_xlib_surface".to_string()];
    let all = instance_extensions(&requested);
    assert_eq!(
        all,
        vec![
            "VK_KHR_surface".to_string(),
            "VK_KHR_xlib_surface".to_string(),
            "VK_EXT_debug_utils".to_string(),
            "VK_EXT_debug_report".to_string(),
        ]
    );
    assert_eq!(instance_extensions(&vec![]).len(), 2);
    assert_eq!(device_extensions(), vec!["VK_KHR_swapchain".to_string()]);
}

#[test]
fn surface_extension_check() {
    assert!(has_surface_extension(&vec!["VK_EXT_debug_utils".to_string(), "VK_KHR_surface".to_string()]));
    assert!(!has_surface_extension(&vec!["VK_EXT_debug_utils".to_string()]));
    assert!(!has_surface_extension(&vec![]));
    assert!(!has_surface_extension(&vec!["VK_KHR_surface2".to_string()]));
}

#[test]
fn test_entry() {
    let version = version_string(Some(requested_api_version()));
    println!("Vulkan version {}", version);
    assert_eq!(version, "1.2.0");
}

#[test]
fn test_create_entry() {
    let version = version_string(None);
    println!("Vulkan version {}", version);
    assert_eq!(version, "1.0");
}
