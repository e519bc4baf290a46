use iching::hexagram::Hexagram;
use iching::hexagram::LineType;
use iching::model::HexagramType;
use iching::model::Model;
use iching::model::Msg;

#[test]
fn initial_state_shows_two_solid_hexagrams() {
    let m = Model::new();
    assert_eq!(m.active(), HexagramType::Present);
    assert_eq!(m.hexagram(HexagramType::Present).bin_id(), 63);
    assert_eq!(m.hexagram(HexagramType::Future).bin_id(), 63);
}

#[test]
fn set_hexagram_reports_whether_lines_differed() {
    let mut m = Model::new();
    let same = Hexagram::new();
    assert!(!m.update(Msg::SetHexagram(HexagramType::Present, same)));

    let mut other = Hexagram::new();
    other.switch_line(3);
    assert!(m.update(Msg::SetHexagram(HexagramType::Present, other.clone())));
    assert_eq!(m.hexagram(HexagramType::Present), &other);
    // the future slot and the active mark are untouched
    assert_eq!(m.hexagram(HexagramType::Future).bin_id(), 63);
    assert_eq!(m.active(), HexagramType::Present);
}

#[test]
fn set_hexagrams_replaces_both_and_activates_present() {
    let mut m = Model::new();
    assert!(m.update(Msg::SetActiveHexagram(HexagramType::Future)));

    let p = Hexagram::from_lines(vec![LineType::Yin; 6]);
    let mut f = Hexagram::new();
    f.switch_line(0);
    assert!(m.update(Msg::SetHexagrams(p.clone(), f.clone())));
    assert_eq!(m.hexagram(HexagramType::Present), &p);
    assert_eq!(m.hexagram(HexagramType::Future), &f);
    assert_eq!(m.active(), HexagramType::Present);
    assert_eq!(m.active_hexagram(), &p);
}

#[test]
fn set_active_hexagram_reports_whether_it_was_inactive() {
    let mut m = Model::new();
    assert!(!m.update(Msg::SetActiveHexagram(HexagramType::Present)));
    assert!(m.update(Msg::SetActiveHexagram(HexagramType::Future)));
    assert_eq!(m.active(), HexagramType::Future);
    assert!(!m.update(Msg::SetActiveHexagram(HexagramType::Future)));
    assert_eq!(m.active_hexagram().bin_id(), 63);
}
