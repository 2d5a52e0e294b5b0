use voluntary_servitude::segments::{locate, new_segment, SEGMENTS};

#[test]
fn locate_first_positions() {
    assert_eq!(locate(0), (0, 0, 1));
    assert_eq!(locate(1), (1, 0, 2));
    assert_eq!(locate(2), (1, 1, 2));
    assert_eq!(locate(3), (2, 0, 4));
    assert_eq!(locate(6), (2, 3, 4));
    assert_eq!(locate(7), (3, 0, 8));
    assert_eq!(locate(1022), (9, 511, 512));
}

#[test]
fn locate_last_position() {
    let (segment, offset, length) = locate(usize::MAX - 1);
    assert!(segment < SEGMENTS);
    assert_eq!(segment as u32, usize::BITS - 1);
    assert_eq!(length, 1usize << (usize::BITS - 1));
    assert_eq!(offset, length - 1);
}

#[test]
fn every_position_has_its_own_slot() {
    let mut seen = std::collections::HashSet::new();
    for position in 0..5000usize {
        let (segment, offset, length) = locate(position);
        assert!(offset < length);
        assert!(seen.insert((segment, offset)));
    }
}

#[test]
fn new_segment_has_the_length_asked() {
    let segment = new_segment::<u8>(8);
    assert_eq!(segment.len(), 8);
    assert!(segment.iter().all(|slot| slot.get().is_none()));
}
