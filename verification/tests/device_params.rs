use quadgrid::device_select::select_device_and_queue_family;
use quadgrid::memory_types::find_memorytype_index;
use quadgrid::surface_params::{
    get_mailbox_or_fifo_present_mode, get_standard_surface_image_count,
    get_surface_capabilities_pre_transform, PresentMode, SurfaceCapabilities, TRANSFORM_IDENTITY,
};

fn caps(min: u32, max: u32, supported: u32, current: u32) -> SurfaceCapabilities {
    SurfaceCapabilities {
        min_image_count: min,
        max_image_count: max,
        supported_transforms: supported,
        current_transform: current,
    }
}

#[test]
fn image_count_is_min_plus_one_without_a_cap() {
    assert_eq!(get_standard_surface_image_count(&caps(2, 0, 0, 0)), 3);
    assert_eq!(get_standard_surface_image_count(&caps(1, 0, 0, 0)), 2);
}

#[test]
fn image_count_is_clamped_to_a_nonzero_cap() {
    assert_eq!(get_standard_surface_image_count(&caps(3, 3, 0, 0)), 3);
    assert_eq!(get_standard_surface_image_count(&caps(2, 8, 0, 0)), 3);
}

#[test]
fn pre_transform_prefers_identity() {
    let rotate_bit = 0x4u32;
    assert_eq!(
        get_surface_capabilities_pre_transform(&caps(2, 0, TRANSFORM_IDENTITY | rotate_bit, rotate_bit)),
        TRANSFORM_IDENTITY
    );
    assert_eq!(
        get_surface_capabilities_pre_transform(&caps(2, 0, rotate_bit, rotate_bit)),
        rotate_bit
    );
}

#[test]
fn present_mode_prefers_mailbox_over_fifo() {
    let offered = vec![PresentMode::Fifo, PresentMode::Mailbox, PresentMode::Immediate];
    assert_eq!(get_mailbox_or_fifo_present_mode(&offered), PresentMode::Mailbox);
    let no_mailbox = vec![PresentMode::Immediate, PresentMode::FifoRelaxed, PresentMode::Fifo];
    assert_eq!(get_mailbox_or_fifo_present_mode(&no_mailbox), PresentMode::Fifo);
    assert_eq!(get_mailbox_or_fifo_present_mode(&Vec::new()), PresentMode::Fifo);
}

#[test]
fn memory_type_search_returns_first_suitable() {
    let host_visible = 0b01u32;
    let host_coherent = 0b10u32;
    let flags = vec![
        host_visible,
        host_visible | host_coherent,
        host_visible | host_coherent,
    ];
    // every type admitted: the first with both flags wins
    assert_eq!(
        find_memorytype_index(&flags, 0b111, host_visible | host_coherent),
        Some(1)
    );
    // the resource's requirements rule out type 1
    assert_eq!(
        find_memorytype_index(&flags, 0b101, host_visible | host_coherent),
        Some(2)
    );
}

#[test]
fn memory_type_search_reports_no_fit() {
    let flags = vec![0b01u32, 0b01u32];
    assert_eq!(find_memorytype_index(&flags, 0b11, 0b10), None);
    // requirements admit no type at all
    assert_eq!(find_memorytype_index(&flags, 0b00, 0b01), None);
}

#[test]
fn device_selection_takes_first_suitable_pair() {
    // device 0 has no suitable family; device 1's first suitable family is 2
    let support = vec![
        vec![false, false],
        vec![false, false, true, true],
        vec![true],
    ];
    assert_eq!(select_device_and_queue_family(&support), Some((1, 2)));
    // a suitable family on the very first device wins outright
    let first = vec![vec![false, true], vec![true]];
    assert_eq!(select_device_and_queue_family(&first), Some((0, 1)));
}

#[test]
fn device_selection_reports_no_fit() {
    let support = vec![vec![false, false], vec![], vec![false]];
    assert_eq!(select_device_and_queue_family(&support), None);
    assert_eq!(select_device_and_queue_family(&Vec::new()), None);
}
