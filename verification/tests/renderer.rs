use stl_gallery::renderer::{align_up, ReadbackLayout};

#[test]
fn align_up_rounds_to_multiple() {
    assert_eq!(align_up(0, 256), 0);
    assert_eq!(align_up(1, 256), 256);
    assert_eq!(align_up(256, 256), 256);
    assert_eq!(align_up(257, 256), 512);
    assert_eq!(align_up(400, 256), 512);
    assert_eq!(align_up(4096, 256), 4096);
    assert_eq!(align_up(10, 3), 12);
}

#[test]
fn default_width_needs_no_padding() {
    let layout = ReadbackLayout::new(1024, 1024);
    assert_eq!(layout.unpadded_bytes_per_row, 4096);
    assert_eq!(layout.padded_bytes_per_row, 4096);
    assert_eq!(layout.buffer_size(), 4096 * 1024);
}

#[test]
fn odd_width_is_padded() {
    let layout = ReadbackLayout::new(100, 3);
    assert_eq!(layout.unpadded_bytes_per_row, 400);
    assert_eq!(layout.padded_bytes_per_row, 512);
    assert_eq!(layout.buffer_size(), 1536);
}

#[test]
fn fits_rejects_overflowing_sizes() {
    assert!(ReadbackLayout::fits(1024, 1024));
    assert!(!ReadbackLayout::fits(u32::MAX, 1));
    assert!(!ReadbackLayout::fits(0x4000_0000, 1));
    assert!(!ReadbackLayout::fits(1024, 0x0010_0000));
    assert!(ReadbackLayout::fits(64, 0));
}

#[test]
fn strip_padding_drops_row_tails() {
    let layout = ReadbackLayout::new(65, 2);
    assert_eq!(layout.unpadded_bytes_per_row, 260);
    assert_eq!(layout.padded_bytes_per_row, 512);
    let padded: Vec<u8> = (0..1024u32).map(|i| (i % 251) as u8).collect();
    let tight = layout.strip_padding(&padded);
    assert_eq!(tight.len(), 65 * 2 * 4);
    assert_eq!(&tight[..260], &padded[..260]);
    assert_eq!(&tight[260..], &padded[512..772]);
}

#[test]
fn strip_padding_copies_unpadded_buffer() {
    let layout = ReadbackLayout::new(64, 2);
    let padded: Vec<u8> = (0..512u32).map(|i| (i % 256) as u8).collect();
    assert_eq!(layout.strip_padding(&padded), padded);
}
