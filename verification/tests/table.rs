use iching::table::entry_of;

#[test]
fn table_has_sixty_four_entries_with_traditional_ids_once_each() {
    let mut seen = [false; 65];
    for b in 0..64 {
        let (_, traditional, _) = entry_of(b);
        assert!((1..=64).contains(&traditional));
        assert!(!seen[traditional], "traditional id {} appears twice", traditional);
        seen[traditional] = true;
    }
    assert!(seen[1..].iter().all(|&s| s));
}

#[test]
fn table_glyphs_are_distinct() {
    let mut glyphs = Vec::new();
    for b in 0..64 {
        let (glyph, _, _) = entry_of(b);
        assert!(!glyphs.contains(&glyph), "glyph {} appears twice", glyph);
        glyphs.push(glyph);
    }
    assert_eq!(glyphs.len(), 64);
}

#[test]
fn table_known_entries() {
    assert_eq!(entry_of(0), ('䷁', 2, "乾"));
    assert_eq!(entry_of(1), ('䷖', 23, "坤"));
    assert_eq!(entry_of(28), ('䷟', 32, "坎"));
    assert_eq!(entry_of(62), ('䷪', 43, "既濟"));
    assert_eq!(entry_of(63), ('䷀', 1, "未濟"));
}
