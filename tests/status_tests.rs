use pingpong::status::{frame_index_for, PinPongStatus, Status};

#[test]
fn new_status_has_defaults() {
    let s = Status::new();
    assert_eq!(s.buffer_size, 20);
    assert_eq!(s.frame_len, 200);
    assert_eq!(s.frame_rate, 60);
    assert_eq!(s.elapsed_frame, 0);
    assert_eq!(s.next_frame_index, 0);
    assert_eq!(s.ping_pong, PinPongStatus::FtT2);
}

#[test]
fn frame_index_at_start_carries_half_second_bias() {
    // floor((0.5 + 0) * 60) mod 200 = 30
    assert_eq!(frame_index_for(0, 60, 200), 30);
}

#[test]
fn frame_index_just_after_start() {
    // floor((0.5 + 0.000001) * 60) = 30
    assert_eq!(frame_index_for(1, 60, 200), 30);
    // floor((0.5 + 0.5) * 60) = 60
    assert_eq!(frame_index_for(500_000, 60, 200), 60);
}

#[test]
fn frame_index_wraps_modulo_frame_len() {
    // floor(3.5 * 60) = 210, 210 mod 200 = 10
    assert_eq!(frame_index_for(3_000_000, 60, 200), 10);
}

#[test]
fn frame_index_stays_inside_cycle() {
    let lens: [u32; 4] = [1, 7, 200, u32::MAX];
    let times: [u64; 6] = [0, 1, 16_666, 999_999, 123_456_789_012, u64::MAX];
    let rates: [u32; 4] = [0, 1, 60, u32::MAX];
    for &len in lens.iter() {
        for &t in times.iter() {
            for &rate in rates.iter() {
                assert!(frame_index_for(t, rate, len) < len);
            }
        }
    }
}

#[test]
fn frame_index_at_largest_inputs_is_exact() {
    let t = u64::MAX as u128;
    let expected = ((500_000u128 + t) * (u32::MAX as u128) / 1_000_000) % 200;
    assert_eq!(frame_index_for(u64::MAX, u32::MAX, 200) as u128, expected);
}

#[test]
fn set_elapsed_changes_only_the_index() {
    let mut s = Status::new();
    s.set_elapsed(500_000);
    assert_eq!(s.next_frame_index, 60);
    assert_eq!(s.elapsed_frame, 0);
    assert_eq!(s.ping_pong, PinPongStatus::FtT2);
    assert_eq!(s.frame_len, 200);
}

#[test]
fn update_post_counts_and_resets() {
    let mut s = Status::new();
    s.ping_pong = PinPongStatus::F2T1;
    s.update_post();
    assert_eq!(s.elapsed_frame, 1);
    assert_eq!(s.ping_pong, PinPongStatus::FtT2);
}

#[test]
fn update_post_wraps_frame_counter() {
    let mut s = Status::new();
    s.elapsed_frame = u32::MAX;
    s.update_post();
    assert_eq!(s.elapsed_frame, 0);
}

#[test]
fn flip_alternates() {
    assert_eq!(PinPongStatus::F1T2.flip(), PinPongStatus::F2T1);
    assert_eq!(PinPongStatus::F2T1.flip(), PinPongStatus::F1T2);
}

#[test]
fn elapsed_micros_is_monotonic() {
    let s = Status::new();
    let a = s.elapsed_micros();
    let b = s.elapsed_micros();
    assert!(a <= b);
}
