use pingpong::config::ConfigBlock;

fn native(words: &[u32]) -> Vec<u8> {
    let mut out = Vec::new();
    for w in words {
        out.extend_from_slice(&w.to_ne_bytes());
    }
    out
}

#[test]
fn block_for_frame_zeroes_reserved_and_time() {
    let b = ConfigBlock::for_frame(800, 600, 30);
    assert_eq!(b.width, 800);
    assert_eq!(b.height, 600);
    assert_eq!(b.frame_index, 30);
    assert_eq!(b.reserved, 0);
    assert_eq!(b.time_bits, 0f32.to_bits());
    assert_eq!(b.words(), vec![800, 600, 30, 0, 0]);
}

#[test]
fn block_bytes_are_the_memory_image() {
    let b = ConfigBlock::for_frame(800, 600, 30);
    let bytes = b.to_bytes();
    assert_eq!(bytes.len(), 20);
    assert_eq!(bytes, native(&[800, 600, 30, 0, 0]));
    assert_ne!(bytes, vec![0u8; 20]);
}

#[test]
fn block_bytes_of_large_words() {
    let b = ConfigBlock {
        width: 0x0102_0304,
        height: u32::MAX,
        frame_index: 199,
        reserved: 0,
        time_bits: 0.5f32.to_bits(),
    };
    assert_eq!(
        b.to_bytes(),
        native(&[0x0102_0304, u32::MAX, 199, 0, 0.5f32.to_bits()])
    );
}
