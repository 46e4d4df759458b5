use vk_renderer::device::{find_queue_family, select_queue_family, supports_graphics, DeviceInfo};
use vk_renderer::swapchain::{
    choose_present_mode, current_view_index, desired_image_count, image_acquired, initial_frame_state, needs_acquire,
    pre_transform, swapchain_params, FrameState, SurfaceInfo, SurfaceKey, SwapchainDescription, SwapchainParams,
    SwapchainTable,
};

fn devices() -> Vec<DeviceInfo> {
    vec![
        DeviceInfo { discrete: false, queue_families: vec![0b110, 0b111] },
        DeviceInfo { discrete: true, queue_families: vec![0b1, 0b100, 0b1111] },
    ]
}

#[test]
fn graphics_flag() {
    assert!(supports_graphics(0b1));
    assert!(supports_graphics(0b1011));
    assert!(!supports_graphics(0b1110));
    assert!(!supports_graphics(0));
}

fn all_supported(d: &Vec<DeviceInfo>) -> Vec<Vec<bool>> {
    d.iter().map(|x| vec![true; x.queue_families.len()]).collect()
}

#[test]
fn search_takes_first_graphics_family() {
    let d = devices();
    let support = all_supported(&d);
    assert_eq!(find_queue_family(&d, &support, false), Some((0, 1)));
    assert_eq!(select_queue_family(&d, &support, false), (0, 1));
    assert_eq!(find_queue_family(&vec![], &vec![], false), None);
}

#[test]
fn search_first_supported_discrete() {
    let d = devices();
    let mut support = all_supported(&d);
    support[1][0] = false;
    assert_eq!(find_queue_family(&d, &support, true), Some((1, 2)));
    assert_eq!(select_queue_family(&d, &support, true), (1, 2));
    support[1][2] = false;
    assert_eq!(find_queue_family(&d, &support, true), None);
    support[0][1] = false;
    assert_eq!(find_queue_family(&d, &support, false), None);
}

#[test]
fn swapchain_choices() {
    assert_eq!(pre_transform(0b11, 0b10), 0b1);
    assert_eq!(pre_transform(0b10, 0b10), 0b10);
    assert_eq!(desired_image_count(2, 0), 3);
    assert_eq!(desired_image_count(2, 3), 3);
    assert_eq!(desired_image_count(3, 3), 3);
    assert_eq!(desired_image_count(2, 8), 3);
    assert_eq!(choose_present_mode(&vec![2, 1, 0]), 1);
    assert_eq!(choose_present_mode(&vec![0, 2, 3]), 2);
    assert_eq!(choose_present_mode(&vec![]), 2);
}

#[test]
fn swapchain_table_replaces() {
    let k1 = SurfaceKey { handle: 7, width: 800, height: 600 };
    let k2 = SurfaceKey { handle: 7, width: 1024, height: 768 };
    let mut t = SwapchainTable::new();
    assert_eq!(t.get(k1), None);
    t.insert(k1, 100);
    t.insert(k2, 200);
    assert_eq!(t.get(k1), Some(100));
    t.insert(k1, 300);
    assert_eq!(t.get(k1), Some(300));
    assert_eq!(t.get(k2), Some(200));
}

#[test]
fn params_for_surface() {
    let key = SurfaceKey { handle: 1, width: 800, height: 600 };
    let s = SurfaceInfo {
        key,
        formats: vec![(44, 0), (50, 0)],
        min_image_count: 2,
        max_image_count: 0,
        current_extent: (800, 600),
        supported_transforms: 0b1,
        current_transform: 0b1,
        present_modes: vec![2, 1],
    };
    let mut t = SwapchainTable::new();
    let p = swapchain_params(&s, &t);
    assert_eq!(
        p,
        SwapchainParams {
            format: 44,
            color_space: 0,
            min_image_count: 3,
            extent_width: 800,
            extent_height: 600,
            pre_transform: 1,
            present_mode: 1,
            old_swapchain: 0,
        }
    );
    t.insert(key, 0xabc);
    assert_eq!(swapchain_params(&s, &t).old_swapchain, 0xabc);
}

#[test]
fn frame_acquired_once_then_reused() {
    let mut st = initial_frame_state();
    assert_eq!(st, FrameState { current_image_used: true, current_image_index: 0 });
    assert!(needs_acquire(&st));
    assert_eq!(image_acquired(&mut st, 2), 2);
    assert!(!needs_acquire(&st));
    assert_eq!(current_view_index(&st), 2);
    assert_eq!(current_view_index(&st), 2);
}

#[test]
fn swapchain_description() {
    assert_eq!(SwapchainDescription::new(3).image_count(), 3);
}
