use iching::hexagram::Hexagram;
use iching::hexagram::LineType;

/// The six lines, topmost first, whose binary id is `id`.
fn lines_for(id: usize) -> Vec<LineType> {
    assert!(id < 64);
    let mut lines = Vec::new();
    for i in 0..6 {
        if id >> (5 - i) & 1 == 1 {
            lines.push(LineType::Yang);
        } else {
            lines.push(LineType::Yin);
        }
    }
    lines
}

#[test]
fn binary_id_injective_and_onto() {
    let mut seen = [false; 64];
    for id in 0..64 {
        let h = Hexagram::from_lines(lines_for(id));
        let b = h.bin_id();
        assert!(b < 64);
        assert!(!seen[b], "binary id {} reached twice", b);
        seen[b] = true;
        assert_eq!(b, id);
    }
    assert!(seen.iter().all(|&s| s));
}

#[test]
fn round_trip_patterns() {
    for id in 0..64 {
        let pattern = lines_for(id);
        let h = Hexagram::from_lines(pattern.clone());
        assert_eq!(h.bin_id(), id);
        assert_eq!(h.lines(), pattern);
    }
}

#[test]
fn set_line_with_current_value_changes_nothing() {
    let mut h = Hexagram::from_lines(lines_for(0b101010));
    let before = h.lines();
    assert!(!h.set_line(0, LineType::Yang));
    assert!(!h.set_line(1, LineType::Yin));
    assert_eq!(h.lines(), before);
}

#[test]
fn set_line_with_complementary_value_changes_only_that_line() {
    for i in 0..6 {
        let mut h = Hexagram::from_lines(lines_for(0b101010));
        let before = h.lines();
        let flipped = before[i].not();
        assert!(h.set_line(i, flipped));
        let after = h.lines();
        for j in 0..6 {
            if j == i {
                assert_eq!(after[j], flipped);
            } else {
                assert_eq!(after[j], before[j]);
            }
        }
    }
}

#[test]
fn switch_line_twice_is_identity() {
    for id in [0, 0b101010, 0b010101, 63] {
        for i in 0..6 {
            let mut h = Hexagram::from_lines(lines_for(id));
            let original = h.lines();
            h.switch_line(i);
            assert_ne!(h.lines(), original);
            h.switch_line(i);
            assert_eq!(h.lines(), original);
        }
    }
}

#[test]
fn all_broken_has_binary_id_zero() {
    let h = Hexagram::from_lines(vec![LineType::Yin; 6]);
    assert_eq!(h.bin_id(), 0);
    assert_eq!(h.as_char(), '䷁');
    assert_eq!(h.id(), 2);
    assert_eq!(h.name(), "乾");
}

#[test]
fn all_solid_has_binary_id_sixty_three() {
    let h = Hexagram::from_lines(vec![LineType::Yang; 6]);
    assert_eq!(h.bin_id(), 63);
    assert_eq!(h.as_char(), '䷀');
    assert_eq!(h.id(), 1);
    assert_eq!(h.name(), "未濟");
}

#[test]
fn new_hexagram_is_all_solid() {
    let h = Hexagram::new();
    assert_eq!(h.lines(), vec![LineType::Yang; 6]);
    assert_eq!(h.bin_id(), 63);
}

#[test]
fn line_complement() {
    assert_eq!(LineType::Yang.not(), LineType::Yin);
    assert_eq!(LineType::Yin.not(), LineType::Yang);
}

#[test]
fn eq_lines_is_element_wise() {
    let a = Hexagram::from_lines(lines_for(0b110100));
    let b = Hexagram::from_lines(lines_for(0b110100));
    let c = Hexagram::from_lines(lines_for(0b110101));
    assert!(a.eq_lines(&b));
    assert!(!a.eq_lines(&c));
}
