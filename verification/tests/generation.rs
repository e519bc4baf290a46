use iching::generator::HexagramGenerator;
use iching::hexagram::LineType;

#[test]
fn default_coin_drops_are_one_head_per_group() {
    let drops = HexagramGenerator::default_coin_drops();
    assert_eq!(drops.len(), 18);
    for (i, &d) in drops.iter().enumerate() {
        assert_eq!(d, i % 3 == 0);
    }
    assert_eq!(HexagramGenerator::new().coin_drops(), drops);
}

#[test]
fn default_state_is_neutral_all_solid() {
    let g = HexagramGenerator::new();
    // every group holds exactly one head, so both rules give a solid line
    assert_eq!(g.get_present_hexagram().bin_id(), 63);
    assert_eq!(g.get_future_hexagram().bin_id(), 63);
}

#[test]
fn fixed_tosses_follow_the_head_count_rules() {
    // six groups with head counts 1, 0, 2, 3, 1, 2
    let drops = vec![
        true, false, false, // 1 head:  present solid, future solid
        false, false, false, // 0 heads: present broken, future solid
        true, true, false, // 2 heads: present broken, future broken
        true, true, true, // 3 heads: present solid, future broken
        false, true, false, // 1 head:  present solid, future solid
        true, false, true, // 2 heads: present broken, future broken
    ];
    let g = HexagramGenerator::from_coin_drops(drops);
    let present = g.get_present_hexagram();
    let future = g.get_future_hexagram();
    assert_eq!(
        present.lines(),
        vec![
            LineType::Yang,
            LineType::Yin,
            LineType::Yin,
            LineType::Yang,
            LineType::Yang,
            LineType::Yin,
        ]
    );
    assert_eq!(
        future.lines(),
        vec![
            LineType::Yang,
            LineType::Yang,
            LineType::Yin,
            LineType::Yin,
            LineType::Yang,
            LineType::Yin,
        ]
    );
    assert_eq!(present.bin_id(), 0b100110);
    assert_eq!(future.bin_id(), 0b110010);
}

#[test]
fn generated_pair_derives_from_the_stored_tosses() {
    let mut g = HexagramGenerator::new();
    for _ in 0..20 {
        let (present, future) = g.generate();
        let recorded = g.coin_drops();
        assert_eq!(recorded.len(), 18);
        // reconstructing both hexagrams from the recorded tosses gives
        // the emitted pair: present and future share one toss sequence
        let replay = HexagramGenerator::from_coin_drops(recorded);
        assert_eq!(replay.get_present_hexagram(), present);
        assert_eq!(replay.get_future_hexagram(), future);
    }
}
