use colormel::resource::{
    element_size, rw_buffer_layout, Fence, FORMAT_R32_UINT, FORMAT_R8_UNORM,
};

#[test]
fn element_sizes_per_format() {
    assert_eq!(element_size(FORMAT_R32_UINT), Some(4));
    assert_eq!(element_size(FORMAT_R8_UNORM), Some(1));
    assert_eq!(element_size(0), None);
    assert_eq!(element_size(87), None);
}

#[test]
fn histogram_buffer_layout() {
    let l = rw_buffer_layout(256, FORMAT_R32_UINT).unwrap();
    assert_eq!(l.byte_size, 1024);
    assert_eq!(l.typed_elems, 256);
    assert_eq!(l.raw_elems, 256);
}

#[test]
fn cloud_buffer_layout() {
    let l = rw_buffer_layout(256 * 256 * 256, FORMAT_R32_UINT).unwrap();
    assert_eq!(l.byte_size, 4 * 256 * 256 * 256);
    assert_eq!(l.raw_elems, 256 * 256 * 256);
}

#[test]
fn unsupported_format_has_no_layout() {
    assert!(rw_buffer_layout(64, 10).is_none());
}

#[test]
fn fence_values_advance_and_gate_blocking() {
    let mut fence = Fence::new();
    let first = fence.next_signal();
    assert_eq!(first, 1);
    assert_eq!(fence.next_signal(), 2);
    assert!(Fence::must_block(0, first));
    assert!(!Fence::must_block(1, first));
    assert!(!Fence::must_block(7, first));
}
