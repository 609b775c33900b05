use screen_stream::differ::{frame_differs, is_frame_different, FrameDiffer, DIFFERENCE_THRESHOLD};

const FRAME_BYTES: usize = 1920 * 1080 * 4;

fn with_changes(base: &[u8], count: usize) -> Vec<u8> {
    let mut v = base.to_vec();
    for i in 0..count {
        v[i * 3] = v[i * 3].wrapping_add(1);
    }
    v
}

#[test]
fn first_frame_is_always_delivered() {
    let mut d = FrameDiffer::new(DIFFERENCE_THRESHOLD);
    assert!(d.offer(&vec![0u8; 16]));
}

#[test]
fn first_empty_frame_is_delivered() {
    let mut d = FrameDiffer::new(0);
    assert!(d.offer(&Vec::new()));
    assert!(!d.offer(&Vec::new()));
}

#[test]
fn identical_frame_is_suppressed() {
    let mut d = FrameDiffer::new(DIFFERENCE_THRESHOLD);
    assert!(d.offer(&vec![7u8; 64]));
    assert!(!d.offer(&vec![7u8; 64]));
}

#[test]
fn exactly_threshold_changes_are_suppressed() {
    let base = vec![0u8; 100];
    assert!(!frame_differs(&base, &with_changes(&base, 5), 5));
}

#[test]
fn one_past_threshold_is_delivered() {
    let base = vec![0u8; 100];
    assert!(frame_differs(&base, &with_changes(&base, 6), 5));
}

#[test]
fn unequal_lengths_are_delivered() {
    assert!(is_frame_different(&[1, 2, 3], &[1, 2, 3, 4]));
    assert!(frame_differs(&[], &[0], usize::MAX));
    let mut d = FrameDiffer::new(usize::MAX);
    assert!(d.offer(&vec![5u8; 8]));
    assert!(d.offer(&vec![5u8; 9]));
}

#[test]
fn full_hd_frames_at_default_threshold() {
    let base = vec![0u8; FRAME_BYTES];
    assert_eq!(base.len(), 8_294_400);
    assert!(is_frame_different(&base, &with_changes(&base, 10_001)));
    assert!(!is_frame_different(&base, &with_changes(&base, 9_999)));
    assert!(!is_frame_different(&base, &with_changes(&base, 10_000)));
}

#[test]
fn suppressed_frame_does_not_become_reference() {
    let mut d = FrameDiffer::new(2);
    let a = vec![0u8; 10];
    assert!(d.offer(&a));
    let b = with_changes(&a, 2);
    assert!(!d.offer(&b));
    // compared with `a`, not with `b`
    let c = with_changes(&a, 3);
    assert!(d.offer(&c));
    assert!(!d.offer(&c));
    assert_eq!(d.threshold(), 2);
}
